use ytsync::youtube::auth::Authorized;
use ytsync::youtube::fetch::{FetchEvent, FetchStep, PlaylistFetch, ACCEPT_HEADER, ACCEPT_JSON};
use ytsync::youtube::page::DecodeError;
use ytsync::youtube::{ClientError, Youtube};
use ytsync::Video;

const ENDPOINT: &str = "https://youtube.googleapis.com/youtube/v3/playlistItems?part=snippet";

fn entry(title: &str, id: &str) -> String {
    format!(
        r#"{{"snippet":{{"title":"{}","description":"about {}","resourceId":{{"videoId":"{}","kind":"youtube#video"}}}}}}"#,
        title, title, id
    )
}

fn page(entries: &[String], cursor: Option<&str>) -> String {
    match cursor {
        Some(c) => format!(r#"{{"items":[{}],"nextPageToken":"{}"}}"#, entries.join(","), c),
        None => format!(r#"{{"items":[{}]}}"#, entries.join(",")),
    }
}

/// Runs a traversal against bodies that are served in order, and gives the
/// targets that were asked for and how the traversal ended.
fn traverse<T: Authorized>(
    client: &Youtube<T>,
    playlist: &str,
    size: u32,
    mut events: Vec<FetchEvent>,
) -> (Vec<String>, Result<Vec<Video>, ClientError>) {
    events.reverse();
    let mut targets = Vec::new();
    let mut step = PlaylistFetch::begin(client, playlist, size);
    loop {
        match step {
            FetchStep::Fetch { fetch, target } => {
                targets.push(target);
                let event = events.pop().expect("more requests than responses");
                step = fetch.advance(event);
            }
            FetchStep::Done(videos) => return (targets, Ok(videos)),
            FetchStep::Failed(error) => return (targets, Err(error)),
        }
    }
}

#[test]
fn three_pages_are_walked_in_three_requests() {
    let client = Youtube::new().with_api("k").unwrap();
    let bodies = vec![
        FetchEvent::Body(page(&[entry("one", "a"), entry("two", "b")], Some("c1"))),
        FetchEvent::Body(page(&[], Some("c2"))),
        FetchEvent::Body(page(&[entry("three", "c")], None)),
    ];
    let (targets, outcome) = traverse(&client, "PL", 50, bodies);
    assert_eq!(
        targets,
        vec![
            format!("{}&playlistId=PL&maxResults=50&key=k", ENDPOINT),
            format!("{}&playlistId=PL&maxResults=50&pageToken=c1&key=k", ENDPOINT),
            format!("{}&playlistId=PL&maxResults=50&pageToken=c2&key=k", ENDPOINT),
        ]
    );
    let videos = outcome.unwrap();
    assert_eq!(videos.len(), 3);
    assert_eq!(videos[0].url(), "https://youtube.com/watch?v=a");
    assert_eq!(videos[0].title(), Some(&"one".to_string()));
    assert_eq!(videos[0].description(), Some(&"about one".to_string()));
    assert_eq!(videos[1].url(), "https://youtube.com/watch?v=b");
    assert_eq!(videos[1].title(), Some(&"two".to_string()));
    assert_eq!(videos[2].url(), "https://youtube.com/watch?v=c");
    assert_eq!(videos[2].title(), Some(&"three".to_string()));
}

#[test]
fn a_single_page_is_one_request() {
    let client = Youtube::new().with_oauth("t").unwrap();
    let bodies = vec![FetchEvent::Body(page(&[entry("one", "a")], None))];
    let (targets, outcome) = traverse(&client, "PL", 5, bodies);
    assert_eq!(targets, vec![format!("{}&playlistId=PL&maxResults=5&access_token=t", ENDPOINT)]);
    assert_eq!(outcome.unwrap().len(), 1);
}

#[test]
fn an_empty_playlist_is_still_asked_for() {
    let client = Youtube::new().with_api("k").unwrap();
    let bodies = vec![FetchEvent::Body(page(&[], None))];
    let (targets, outcome) = traverse(&client, "PL", 50, bodies);
    assert_eq!(targets.len(), 1);
    assert!(outcome.unwrap().is_empty());
}

#[test]
fn a_null_cursor_ends_the_traversal() {
    let client = Youtube::new().with_api("k").unwrap();
    let body = format!(r#"{{"items":[{}],"nextPageToken":null}}"#, entry("one", "a"));
    let (targets, outcome) = traverse(&client, "PL", 50, vec![FetchEvent::Body(body)]);
    assert_eq!(targets.len(), 1);
    assert_eq!(outcome.unwrap().len(), 1);
}

#[test]
fn an_empty_page_with_a_cursor_does_not_end_the_traversal() {
    let client = Youtube::new().with_api("k").unwrap();
    let bodies = vec![
        FetchEvent::Body(page(&[], Some("c1"))),
        FetchEvent::Body(page(&[], Some("c2"))),
        FetchEvent::Body(page(&[entry("late", "z")], None)),
    ];
    let (targets, outcome) = traverse(&client, "PL", 50, bodies);
    assert_eq!(targets.len(), 3);
    let videos = outcome.unwrap();
    assert_eq!(videos.len(), 1);
    assert_eq!(videos[0].url(), "https://youtube.com/watch?v=z");
}

#[test]
fn a_body_that_is_no_page_fails_the_whole_traversal() {
    let client = Youtube::new().with_api("k").unwrap();
    let bodies = vec![
        FetchEvent::Body(page(&[entry("one", "a")], Some("c1"))),
        FetchEvent::Body(r#"{"items":[{"snippet":{"title":"T","description":"D"}}]}"#.to_string()),
        FetchEvent::Body(page(&[entry("three", "c")], None)),
    ];
    let (targets, outcome) = traverse(&client, "PL", 50, bodies);
    assert_eq!(targets.len(), 2);
    assert!(matches!(outcome, Err(ClientError::Decode(DecodeError::NotAPage))));
}

#[test]
fn a_body_that_is_not_json_fails_the_whole_traversal() {
    let client = Youtube::new().with_api("k").unwrap();
    let bodies = vec![FetchEvent::Body("<html>".to_string())];
    let (targets, outcome) = traverse(&client, "PL", 50, bodies);
    assert_eq!(targets.len(), 1);
    assert!(matches!(outcome, Err(ClientError::Decode(DecodeError::NotJson))));
}

#[test]
fn a_transport_failure_is_handed_on_as_it_is() {
    let client = Youtube::new().with_api("k").unwrap();
    let bodies = vec![
        FetchEvent::Body(page(&[entry("one", "a")], Some("c1"))),
        FetchEvent::Failure("connection reset".to_string()),
    ];
    let (targets, outcome) = traverse(&client, "PL", 50, bodies);
    assert_eq!(targets.len(), 2);
    match outcome {
        Err(ClientError::Transport(text)) => assert_eq!(text, "connection reset"),
        _ => panic!("the transport failure was lost"),
    }
}

#[test]
fn a_traversal_without_playlist_asks_for_nothing() {
    let client = Youtube::new().with_api("k").unwrap();
    let (targets, outcome) = traverse(&client, "", 50, vec![]);
    assert!(targets.is_empty());
    assert!(matches!(outcome, Err(ClientError::MissingPlaylistId)));
}

#[test]
fn the_cursor_is_taken_from_the_page_before() {
    let client = Youtube::new().with_api("k").unwrap();
    let bodies = vec![
        FetchEvent::Body(page(&[], Some("same"))),
        FetchEvent::Body(page(&[], Some("same"))),
        FetchEvent::Body(page(&[], None)),
    ];
    let (targets, outcome) = traverse(&client, "PL", 1, bodies);
    assert_eq!(targets.len(), 3);
    assert_eq!(targets[1], format!("{}&playlistId=PL&maxResults=1&pageToken=same&key=k", ENDPOINT));
    assert_eq!(targets[1], targets[2]);
    assert!(outcome.unwrap().is_empty());
}

#[test]
fn requests_ask_for_json() {
    assert_eq!(ACCEPT_HEADER, "accept");
    assert_eq!(ACCEPT_JSON, "application/json");
}
