use hn_stories::client::{
    story_ids_url, story_item_url, ApiVersion, FetchStep, HackerNewsClient, StoryFetch,
};
use hn_stories::story::{HackerNewsStoryType, StoryItem};
use hn_stories::types::HnError;

fn story(id: u64) -> StoryItem {
    StoryItem { id, by: None, url: None, score: Some(1), title: Some(format!("Story {}", id)) }
}

/// Runs a fetch to its end against canned answers. Each story request is
/// answered only when the fetch says to wait; of those outstanding the newest
/// is answered first, so stories arrive out of rank order. Returns the fetch,
/// the identifiers in the order their requests were handed out, and the
/// largest number of requests outstanding at once.
fn drive(
    mut fetch: StoryFetch,
    ids: Result<Vec<u64>, String>,
    fails: fn(u64) -> bool,
) -> (StoryFetch, Vec<u64>, usize) {
    let mut ids = Some(ids);
    let mut in_flight: Vec<u64> = Vec::new();
    let mut requested: Vec<u64> = Vec::new();
    let mut peak = 0;
    let mut steps = 0;
    loop {
        steps += 1;
        assert!(steps < 100_000, "the fetch does not come to an end");
        match fetch.poll() {
            FetchStep::RequestIds(_) => {
                fetch.ids_received(ids.take().expect("the list is requested once"));
            }
            FetchStep::RequestItem(id, url) => {
                assert_eq!(url, format!("https://hacker-news.firebaseio.com/v0/item/{}.json", id));
                in_flight.push(id);
                requested.push(id);
            }
            FetchStep::Wait => {
                let id = in_flight.pop().expect("waits only for a request that is outstanding");
                fetch.item_received(if fails(id) { None } else { Some(story(id)) });
            }
            FetchStep::Finished => break,
        }
        assert_eq!(fetch.outstanding(), in_flight.len());
        peak = peak.max(fetch.outstanding());
    }
    assert!(in_flight.is_empty());
    (fetch, requested, peak)
}

fn never(_: u64) -> bool {
    false
}

fn always(_: u64) -> bool {
    true
}

fn every_third(id: u64) -> bool {
    id % 3 == 0
}

fn start(limit: u16) -> StoryFetch {
    HackerNewsClient::new(None).fetch_stories(&HackerNewsStoryType::T, limit)
}

#[test]
fn client_addresses_the_api() {
    assert_eq!(HackerNewsClient::new(None).base_url(), "https://hacker-news.firebaseio.com/v0/");
    assert_eq!(
        HackerNewsClient::new(Some(ApiVersion::V0)).base_url(),
        "https://hacker-news.firebaseio.com/v0/"
    );
    assert_eq!(ApiVersion::V0.path(), "v0");
}

#[test]
fn list_address_is_exact() {
    assert_eq!(
        story_ids_url("https://hacker-news.firebaseio.com/v0/", "topstories", 30),
        "https://hacker-news.firebaseio.com/v0/topstories.json?orderBy=\"$key\"&limitToFirst=30"
    );
    assert_eq!(story_ids_url("b/", "jobstories", 0), "b/jobstories.json?orderBy=\"$key\"&limitToFirst=0");
    assert_eq!(
        story_ids_url("b/", "newstories", u16::MAX),
        "b/newstories.json?orderBy=\"$key\"&limitToFirst=65535"
    );
}

#[test]
fn item_address_is_exact() {
    assert_eq!(
        story_item_url("https://hacker-news.firebaseio.com/v0/", 8863),
        "https://hacker-news.firebaseio.com/v0/item/8863.json"
    );
    assert_eq!(story_item_url("b/", 0), "b/item/0.json");
    assert_eq!(story_item_url("b/", u64::MAX), "b/item/18446744073709551615.json");
}

#[test]
fn fetch_begins_with_the_list_request() {
    let mut fetch = HackerNewsClient::new(None).fetch_stories(&HackerNewsStoryType::A, 200);
    assert!(!fetch.is_finished());
    assert_eq!(fetch.issued(), 0);
    match fetch.poll() {
        FetchStep::RequestIds(url) => assert_eq!(
            url,
            "https://hacker-news.firebaseio.com/v0/askstories.json?orderBy=\"$key\"&limitToFirst=200"
        ),
        other => panic!("expected the list request, got {:?}", other),
    }
    assert!(matches!(fetch.poll(), FetchStep::Wait));
    assert!(!fetch.is_finished());
    assert!(fetch.into_result().is_none());
}

#[test]
fn failed_list_request_fails_the_fetch_without_a_story_request() {
    let (mut fetch, requested, peak) =
        drive(start(30), Err("503 Service Unavailable".to_string()), never);
    assert!(requested.is_empty());
    assert_eq!(peak, 0);
    assert_eq!(fetch.issued(), 0);
    assert!(fetch.is_finished());

    fetch.ids_received(Ok(vec![1, 2, 3]));
    fetch.item_received(Some(story(1)));
    assert!(matches!(fetch.poll(), FetchStep::Finished));
    assert_eq!(fetch.issued(), 0);

    match fetch.into_result() {
        Some(Err(error)) => {
            assert!(matches!(error, HnError::Transport(_)));
            assert_eq!(error.message(), "503 Service Unavailable");
        }
        other => panic!("expected the error of the list request, got {:?}", other),
    }
}

#[test]
fn all_answers_arrive_every_story_is_kept() {
    let ids: Vec<u64> = (1..=12).collect();
    let (fetch, requested, peak) = drive(start(12), Ok(ids.clone()), never);
    assert_eq!(requested, ids);
    assert_eq!(peak, 5);
    let stories = fetch.into_result().expect("finished").expect("no error");
    assert_eq!(stories.len(), 12);
}

#[test]
fn failed_story_requests_are_dropped_silently() {
    let ids: Vec<u64> = (1..=20).collect();
    let (fetch, requested, peak) = drive(start(20), Ok(ids), every_third);
    assert_eq!(requested.len(), 20);
    assert!(peak <= 5);
    let stories = fetch.into_result().expect("finished").expect("no error");
    assert_eq!(stories.len(), 20 - 6);
    assert!(stories.iter().all(|story| story.id % 3 != 0));
}

#[test]
fn all_story_requests_fail_the_result_is_empty_and_no_error() {
    let (fetch, requested, _) = drive(start(3), Ok(vec![10, 20, 30]), always);
    assert_eq!(requested, vec![10, 20, 30]);
    let stories = fetch.into_result().expect("finished").expect("no error");
    assert!(stories.is_empty());
}

#[test]
fn empty_list_gives_an_empty_result() {
    let (fetch, requested, peak) = drive(start(30), Ok(Vec::new()), never);
    assert!(requested.is_empty());
    assert_eq!(peak, 0);
    assert_eq!(fetch.into_result().expect("finished").expect("no error").len(), 0);
}

#[test]
fn outstanding_requests_never_exceed_five() {
    for n in [1u64, 4, 5, 6, 11, 200, 500] {
        let ids: Vec<u64> = (1..=n).collect();
        let (fetch, requested, peak) = drive(start(500), Ok(ids), every_third);
        assert_eq!(requested.len() as u64, n);
        assert_eq!(peak as u64, n.min(5));
        let stories = fetch.into_result().expect("finished").expect("no error");
        assert_eq!(stories.len() as u64, n - n / 3);
        assert!(stories.len() as u64 <= n);
    }
}

#[test]
fn stories_come_in_arrival_order() {
    // Five requests go out at once; the newest is answered first, then the
    // sixth request takes its place, and so on.
    let (fetch, requested, _) = drive(start(7), Ok(vec![1, 2, 3, 4, 5, 6, 7]), never);
    assert_eq!(requested, vec![1, 2, 3, 4, 5, 6, 7]);
    let stories = fetch.into_result().expect("finished").expect("no error");
    let arrived: Vec<u64> = stories.iter().map(|story| story.id).collect();
    assert_eq!(arrived, vec![5, 6, 7, 4, 3, 2, 1]);
}

#[test]
fn sixth_request_waits_for_an_answer() {
    let mut fetch = start(10);
    assert!(matches!(fetch.poll(), FetchStep::RequestIds(_)));
    fetch.ids_received(Ok(vec![1, 2, 3, 4, 5, 6]));
    for expected in 1..=5u64 {
        match fetch.poll() {
            FetchStep::RequestItem(id, _) => assert_eq!(id, expected),
            other => panic!("expected a story request, got {:?}", other),
        }
    }
    assert_eq!(fetch.outstanding(), 5);
    assert!(matches!(fetch.poll(), FetchStep::Wait));
    assert!(matches!(fetch.poll(), FetchStep::Wait));
    assert_eq!(fetch.outstanding(), 5);
    assert_eq!(fetch.issued(), 5);

    fetch.item_received(None);
    assert_eq!(fetch.outstanding(), 4);
    assert!(matches!(fetch.poll(), FetchStep::RequestItem(6, _)));
    assert_eq!(fetch.outstanding(), 5);
    assert!(matches!(fetch.poll(), FetchStep::Wait));
    assert!(!fetch.is_finished());
    assert!(fetch.into_result().is_none());
}

#[test]
fn answers_that_nothing_waits_for_change_nothing() {
    let mut fetch = start(10);
    fetch.ids_received(Ok(vec![1, 2]));
    fetch.item_received(Some(story(1)));
    assert_eq!(fetch.issued(), 0);
    assert!(matches!(fetch.poll(), FetchStep::RequestIds(_)));

    fetch.item_received(Some(story(1)));
    fetch.ids_received(Ok(vec![9]));
    fetch.ids_received(Ok(vec![1, 2]));
    fetch.ids_received(Err("late".to_string()));
    assert!(matches!(fetch.poll(), FetchStep::RequestItem(9, _)));
    fetch.item_received(Some(story(9)));
    fetch.item_received(Some(story(9)));
    assert!(matches!(fetch.poll(), FetchStep::Finished));
    let stories = fetch.into_result().expect("finished").expect("no error");
    assert_eq!(stories.len(), 1);
    assert_eq!(stories[0].id, 9);
}
