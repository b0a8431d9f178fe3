use oscbot::feed::{
    announcement, check_feed_status, feed_url, get_clone, get_video_ids, is_known,
    is_video_id_name, refresh_feed, value, FeedError, FeedEvent, FeedMemory, IdScan,
};

fn ids(items: &[&str]) -> Vec<String> {
    items.iter().map(|s| s.to_string()).collect()
}

const FEED: &str = r#"<?xml version="1.0" encoding="UTF-8"?>
<feed xmlns:yt="http://www.youtube.com/xml/schemas/2015" xmlns="http://www.w3.org/2005/Atom">
 <title>channel</title>
 <entry>
  <id>yt:video:abc123</id>
  <yt:videoId>abc123</yt:videoId>
  <title>first</title>
 </entry>
 <entry>
  <yt:videoId>
     def456
  </yt:videoId>
  <!-- a comment -->
  <link rel="alternate" href="https://www.youtube.com/watch?v=def456"/>
 </entry>
</feed>"#;

#[test]
fn identifiers_are_read_in_document_order() {
    assert_eq!(get_video_ids(FEED), Ok(ids(&["abc123", "def456"])));
}

#[test]
fn feed_without_videos_has_no_identifiers() {
    assert_eq!(get_video_ids("<feed><title>empty</title></feed>"), Ok(Vec::new()));
    assert_eq!(get_video_ids(""), Ok(Vec::new()));
}

#[test]
fn ill_formed_feed_is_refused() {
    assert_eq!(get_video_ids("<feed><yt:videoId>abc</feed>"), Err(FeedError::Malformed));
}

#[test]
fn element_names_that_end_in_video_id() {
    assert!(is_video_id_name("yt:videoId"));
    assert!(is_video_id_name("videoId"));
    assert!(!is_video_id_name("videoid"));
    assert!(!is_video_id_name("videoIds"));
    assert!(!is_video_id_name("Id"));
    assert!(!is_video_id_name(""));
}

#[test]
fn scan_collects_text_inside_the_element_only() {
    let mut scan = IdScan::new();
    assert!(!scan.in_id);
    scan.apply(FeedEvent::Text("outside".to_string()));
    scan.apply(FeedEvent::Start("entry".to_string()));
    scan.apply(FeedEvent::Text("still outside".to_string()));
    scan.apply(FeedEvent::Start("yt:videoId".to_string()));
    assert!(scan.in_id);
    scan.apply(FeedEvent::Other);
    scan.apply(FeedEvent::Text("abc".to_string()));
    scan.apply(FeedEvent::End("other".to_string()));
    scan.apply(FeedEvent::Text("def".to_string()));
    scan.apply(FeedEvent::End("yt:videoId".to_string()));
    assert!(!scan.in_id);
    scan.apply(FeedEvent::Text("after".to_string()));
    assert_eq!(scan.ids, ids(&["abc", "def"]));
}

#[test]
fn memory_starts_empty_and_keeps_what_is_set() {
    let mut memory = FeedMemory::new();
    assert_eq!(value(&memory), &None);
    assert_eq!(get_clone(&memory), None);
    oscbot::feed::set(&mut memory, ids(&["a", "b"]));
    assert_eq!(value(&memory), &Some(ids(&["a", "b"])));
    assert_eq!(get_clone(&memory), Some(ids(&["a", "b"])));
    oscbot::feed::set(&mut memory, ids(&[]));
    assert_eq!(get_clone(&memory), Some(Vec::new()));
}

#[test]
fn first_listing_announces_nothing() {
    let mut memory = FeedMemory::new();
    assert_eq!(refresh_feed(&mut memory, ids(&["c", "b", "a"])), Vec::<String>::new());
    assert_eq!(get_clone(&memory), Some(ids(&["c", "b", "a"])));
}

#[test]
fn new_uploads_are_those_before_the_first_known_one() {
    let mut memory = FeedMemory::new();
    refresh_feed(&mut memory, ids(&["c", "b", "a"]));
    assert_eq!(refresh_feed(&mut memory, ids(&["e", "d", "c", "b"])), ids(&["e", "d"]));
    assert_eq!(get_clone(&memory), Some(ids(&["e", "d", "c", "b"])));
}

#[test]
fn unchanged_listing_announces_nothing_and_keeps_the_memory() {
    let mut memory = FeedMemory::new();
    refresh_feed(&mut memory, ids(&["c", "b", "a"]));
    assert_eq!(refresh_feed(&mut memory, ids(&["c", "b"])), Vec::<String>::new());
    assert_eq!(get_clone(&memory), Some(ids(&["c", "b", "a"])));
    assert_eq!(refresh_feed(&mut memory, ids(&[])), Vec::<String>::new());
    assert_eq!(get_clone(&memory), Some(ids(&["c", "b", "a"])));
}

#[test]
fn uploads_after_a_known_one_are_not_announced() {
    let mut memory = FeedMemory::new();
    refresh_feed(&mut memory, ids(&["b"]));
    assert_eq!(refresh_feed(&mut memory, ids(&["d", "b", "x"])), ids(&["d"]));
    assert_eq!(refresh_feed(&mut memory, ids(&["z", "y"])), ids(&["z", "y"]));
    assert_eq!(get_clone(&memory), Some(ids(&["z", "y"])));
}

#[test]
fn known_identifiers() {
    let known = ids(&["a", "bb"]);
    assert!(is_known(&known, &"a".to_string()));
    assert!(is_known(&known, &"bb".to_string()));
    assert!(!is_known(&known, &"b".to_string()));
    assert!(!is_known(&Vec::new(), &"a".to_string()));
}

#[test]
fn only_status_200_is_accepted() {
    assert_eq!(check_feed_status(200), Ok(()));
    assert_eq!(check_feed_status(204), Err(FeedError::Status(204)));
    assert_eq!(check_feed_status(404), Err(FeedError::Status(404)));
}

#[test]
fn feed_address_and_announcement() {
    assert_eq!(feed_url("UC123"), "https://www.youtube.com/feeds/videos.xml?channel_id=UC123");
    assert_eq!(announcement("abc"), "A new score has been uploaded!\nhttps://youtu.be/abc");
}
