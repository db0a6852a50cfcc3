use ytsync::Video;

#[test]
fn new_video_has_only_an_address() {
    let video = Video::new("https://youtube.com/watch?v=abc123");
    assert_eq!(video.url(), "https://youtube.com/watch?v=abc123");
    assert_eq!(video.title(), None);
    assert_eq!(video.description(), None);
    assert_eq!(video.author(), None);
}

#[test]
fn setters_change_one_field_each() {
    let mut video = Video::new("u");
    video.set_title("T");
    assert_eq!(video.title(), Some(&"T".to_string()));
    assert_eq!(video.description(), None);
    assert_eq!(video.author(), None);
    video.set_description("D");
    assert_eq!(video.title(), Some(&"T".to_string()));
    assert_eq!(video.description(), Some(&"D".to_string()));
    assert_eq!(video.author(), None);
    video.set_author("A");
    assert_eq!(video.author(), Some(&"A".to_string()));
    video.set_url("v");
    assert_eq!(video.url(), "v");
    assert_eq!(video.title(), Some(&"T".to_string()));
    assert_eq!(video.description(), Some(&"D".to_string()));
    assert_eq!(video.author(), Some(&"A".to_string()));
}

#[test]
fn empty_text_is_not_absence() {
    let mut video = Video::new("u");
    video.set_title("");
    assert_eq!(video.title(), Some(&String::new()));
    assert_ne!(video.title(), None);
}
