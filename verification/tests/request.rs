use ytsync::request::youtube::RequestBuilder;
use ytsync::naming::wire_name;
use ytsync::text::decimal_string;
use ytsync::youtube::auth::{ApiAuth, Authorized, OAuth};
use ytsync::youtube::param::ApiParameter;
use ytsync::youtube::playlist::YoutubePlaylistItemRequest;
use ytsync::youtube::{ClientError, Youtube, YT_API_URL};

const ENDPOINT: &str = "https://youtube.googleapis.com/youtube/v3/playlistItems?part=snippet";

#[test]
fn api_key_target_ends_with_key() {
    let client = Youtube::new().with_api("k").unwrap();
    let target = client.playlist_items().playlist_id("X").build().unwrap();
    assert_eq!(target, format!("{}&playlistId=X&key=k", ENDPOINT));
    assert!(target.ends_with("&key=k"));
    assert!(target.contains("playlistId=X"));
    assert!(!target.contains("access_token"));
}

#[test]
fn api_key_target_for_longer_key() {
    let key = "SECRET-REDACTED";
    let client = Youtube::new().with_api(key).unwrap();
    let target = client.playlist_items().playlist_id("PLbALbm1g5VzAqShkgKwo0NIVkwV9bZE8t").build().unwrap();
    assert_eq!(
        target,
        format!("{}&playlistId=PLbALbm1g5VzAqShkgKwo0NIVkwV9bZE8t&key={}", ENDPOINT, key)
    );
    assert!(!target.contains("&access_token="));
}

#[test]
fn access_token_target_ends_with_token() {
    let client = Youtube::new().with_oauth("t").unwrap();
    let target = client.playlist_items().playlist_id("X").build().unwrap();
    assert_eq!(target, format!("{}&playlistId=X&access_token=t", ENDPOINT));
    assert!(target.ends_with("&access_token=t"));
    assert!(!target.contains("&key="));
    assert!(!target.contains("?key="));
}

#[test]
fn empty_api_key_is_refused() {
    let res = Youtube::new().with_api("");
    assert!(matches!(res.err(), Some(ClientError::InvalidCredential)));
}

#[test]
fn empty_access_token_is_refused() {
    let res = Youtube::new().with_oauth("");
    assert!(matches!(res.err(), Some(ClientError::InvalidCredential)));
}

#[test]
fn default_client_accepts_a_key() {
    let client: Youtube<_> = Default::default();
    let client = client.with_api("k").unwrap();
    let target = client.playlist_items().playlist_id("X").build().unwrap();
    assert!(target.ends_with("&key=k"));
}

#[test]
fn build_without_playlist_fails() {
    let client = Youtube::new().with_api("k").unwrap();
    let res = client.playlist_items().build();
    assert!(matches!(res, Err(ClientError::MissingPlaylistId)));
}

#[test]
fn build_without_playlist_fails_whatever_else_is_set() {
    let client = Youtube::new().with_oauth("t").unwrap();
    let res = client.playlist_items().max_items(5).page_id("c1").build();
    assert!(matches!(res, Err(ClientError::MissingPlaylistId)));
}

#[test]
fn build_with_empty_playlist_fails() {
    let client = Youtube::new().with_api("k").unwrap();
    let res = client.playlist_items().playlist_id("").build();
    assert!(matches!(res, Err(ClientError::MissingPlaylistId)));
}

#[test]
fn parameters_come_in_a_fixed_order() {
    let client = Youtube::new().with_api("k").unwrap();
    let expected = format!("{}&playlistId=X&maxResults=50&pageToken=c1&key=k", ENDPOINT);
    let one = client.playlist_items().playlist_id("X").max_items(50).page_id("c1").build().unwrap();
    let other = client.playlist_items().page_id("c1").max_items(50).playlist_id("X").build().unwrap();
    assert_eq!(one, expected);
    assert_eq!(other, expected);
}

#[test]
fn parameters_that_are_not_set_are_left_out() {
    let client = Youtube::new().with_api("k").unwrap();
    let sized = client.playlist_items().playlist_id("X").max_items(7).build().unwrap();
    assert_eq!(sized, format!("{}&playlistId=X&maxResults=7&key=k", ENDPOINT));
    let paged = client.playlist_items().playlist_id("X").page_id("c2").build().unwrap();
    assert_eq!(paged, format!("{}&playlistId=X&pageToken=c2&key=k", ENDPOINT));
    assert!(!paged.contains("maxResults"));
    assert!(!sized.contains("pageToken"));
}

#[test]
fn a_later_setting_replaces_an_earlier_one() {
    let client = Youtube::new().with_api("k").unwrap();
    let target = client
        .playlist_items()
        .playlist_id("A")
        .max_items(1)
        .playlist_id("B")
        .max_items(2)
        .build()
        .unwrap();
    assert_eq!(target, format!("{}&playlistId=B&maxResults=2&key=k", ENDPOINT));
}

#[test]
fn an_empty_cursor_that_was_set_is_written() {
    let client = Youtube::new().with_api("k").unwrap();
    let target = client.playlist_items().playlist_id("X").page_id("").build().unwrap();
    assert_eq!(target, format!("{}&playlistId=X&pageToken=&key=k", ENDPOINT));
}

#[test]
fn values_are_written_as_they_stand() {
    let client = Youtube::new().with_api("a b/c%").unwrap();
    let target = client.playlist_items().playlist_id("x y&z").build().unwrap();
    assert_eq!(target, format!("{}&playlistId=x y&z&key=a b/c%", ENDPOINT));
}

#[test]
fn page_size_is_written_in_decimal() {
    let client = Youtube::new().with_api("k").unwrap();
    let zero = client.playlist_items().playlist_id("X").max_items(0).build().unwrap();
    assert_eq!(zero, format!("{}&playlistId=X&maxResults=0&key=k", ENDPOINT));
    let most = client.playlist_items().playlist_id("X").max_items(u32::MAX).build().unwrap();
    assert_eq!(most, format!("{}&playlistId=X&maxResults=4294967295&key=k", ENDPOINT));
}

#[test]
fn request_from_authorization_state() {
    let key = ApiAuth("k".to_string());
    let target = YoutubePlaylistItemRequest::new(&key).playlist_id("X").build().unwrap();
    assert_eq!(target, format!("{}&playlistId=X&key=k", ENDPOINT));
    let token = OAuth("t".to_string());
    let target = YoutubePlaylistItemRequest::new(&token).playlist_id("X").build().unwrap();
    assert_eq!(target, format!("{}&playlistId=X&access_token=t", ENDPOINT));
}

#[test]
fn authorization_states_name_their_parameter() {
    let key = ApiAuth("secret".to_string());
    assert_eq!(key.token(), "secret");
    assert_eq!(key.param_key(), "&key=");
    let token = OAuth("ticket".to_string());
    assert_eq!(token.token(), "ticket");
    assert_eq!(token.param_key(), "&access_token=");
}

#[test]
fn request_builder_from_bare_key() {
    let target = RequestBuilder::playlist_items("k")
        .max_items(50)
        .playlist_id("X")
        .page_id("c1")
        .build()
        .unwrap();
    assert_eq!(target, format!("{}&playlistId=X&maxResults=50&pageToken=c1&key=k", ENDPOINT));
}

#[test]
fn request_builder_from_bare_key_needs_a_playlist() {
    let res = RequestBuilder::playlist_items("k").max_items(50).build();
    assert!(matches!(res, Err(ClientError::MissingPlaylistId)));
    let res = ytsync::request::youtube::YoutubePlaylistItemRequest::new("k").playlist_id("").build();
    assert!(matches!(res, Err(ClientError::MissingPlaylistId)));
}

#[test]
fn request_builder_agrees_with_client() {
    let client = Youtube::new().with_api("k").unwrap();
    let one = client.playlist_items().playlist_id("X").max_items(3).build().unwrap();
    let other = RequestBuilder::playlist_items("k").playlist_id("X").max_items(3).build().unwrap();
    assert_eq!(one, other);
}

#[test]
fn parameter_keys() {
    assert_eq!(ApiParameter::key(ApiParameter::Part), "?part=");
    assert_eq!(ApiParameter::key(ApiParameter::PlaylistId), "&playlistId=");
    assert_eq!(ApiParameter::key(ApiParameter::MaxResults), "&maxResults=");
    assert_eq!(ApiParameter::key(ApiParameter::PageToken), "&pageToken=");
}

#[test]
fn service_root() {
    assert_eq!(YT_API_URL, "https://youtube.googleapis.com/youtube/v3");
}

#[test]
fn decimal_notation() {
    assert_eq!(decimal_string(0), "0");
    assert_eq!(decimal_string(7), "7");
    assert_eq!(decimal_string(10), "10");
    assert_eq!(decimal_string(50), "50");
    assert_eq!(decimal_string(1234567890), "1234567890");
    assert_eq!(decimal_string(u32::MAX), "4294967295");
}

#[test]
fn wire_names_of_fields() {
    assert_eq!(wire_name("items"), "items");
    assert_eq!(wire_name("next_page_token"), "nextPageToken");
    assert_eq!(wire_name("video_owner_channel_title"), "videoOwnerChannelTitle");
    assert_eq!(wire_name("resource_id"), "resourceId");
    assert_eq!(wire_name("video_id"), "videoId");
    assert_eq!(wire_name("kind"), "kind");
}

#[test]
fn wire_names_at_the_edges() {
    assert_eq!(wire_name(""), "");
    assert_eq!(wire_name("_"), "");
    assert_eq!(wire_name("_id"), "id");
    assert_eq!(wire_name("Video_id"), "videoId");
    assert_eq!(wire_name("a__b_"), "aB");
    assert_eq!(wire_name("page_2_of"), "page2Of");
    assert_eq!(wire_name("été_long"), "étéLong");
}
