use vodbot::collector::{keep_ready, page_url, read_page, Collector, MAX_PAGES};
use vodbot::twitch::{
    clip_from_json, vod_from_json, Reply, VideoKind, VideoType,
};
use vodbot::util::ExitCode;

fn vod_json(id: &str, thumb: &str) -> String {
    format!(
        "{{\"id\":\"{}\",\"title\":\"t{}\",\"created_at\":\"2021-01-01T00:00:00Z\",\"duration\":\"1h2m3s\",\"view_count\":7,\"thumbnail_url\":\"{}\",\"user_id\":\"123\",\"user_name\":\"Foo\",\"user_login\":\"foo\"}}",
        id, id, thumb
    )
}

fn clip_json(id: &str, thumb: &str, duration: &str) -> String {
    format!(
        "{{\"id\":\"{}\",\"title\":\"c\",\"created_at\":\"2021-01-01T00:00:00Z\",\"duration\":{},\"view_count\":3,\"thumbnail_url\":\"{}\",\"broadcaster_id\":\"123\",\"broadcaster_name\":\"Foo\",\"creator_id\":\"9\",\"creator_name\":\"Bar\"}}",
        id, duration, thumb
    )
}

fn page(items: &[String], cursor: Option<&str>) -> String {
    let data = items.join(",");
    match cursor {
        Some(c) => format!("{{\"data\":[{}],\"pagination\":{{\"cursor\":\"{}\"}}}}", data, c),
        None => format!("{{\"data\":[{}],\"pagination\":{{}}}}", data),
    }
}

fn ids(items: &Vec<VideoType>) -> Vec<String> {
    items
        .iter()
        .map(|v| match v {
            VideoType::Vod(v) => v.id.clone(),
            VideoType::Clip(c) => c.id.clone(),
        })
        .collect()
}

#[test]
fn two_pages_then_no_cursor() {
    let mut c = Collector::new(VideoKind::Vod, "123");
    assert_eq!(
        c.next_url().unwrap(),
        "https://api.twitch.tv/helix/videos?user_id=123&first=100&type=archive"
    );
    let first: Vec<String> = (0..100).map(|i| vod_json(&format!("a{}", i), "x")).collect();
    assert!(c.on_reply(&Reply::Body(page(&first, Some("c1")))).is_ok());
    assert!(!c.is_finished());
    assert_eq!(
        c.next_url().unwrap(),
        "https://api.twitch.tv/helix/videos?user_id=123&first=100&type=archive&after=c1"
    );
    let second: Vec<String> = (0..3).map(|i| vod_json(&format!("b{}", i), "x")).collect();
    assert!(c.on_reply(&Reply::Body(page(&second, None))).is_ok());
    assert!(c.is_finished());
    assert_eq!(c.next_url(), None);
    assert_eq!(c.pages(), 2);
    assert_eq!(c.items().len(), 103);
}

#[test]
fn empty_page_stops_even_with_cursor() {
    let mut c = Collector::new(VideoKind::Clip, "42");
    let first = vec![clip_json("k1", "x", "12.5")];
    assert!(c.on_reply(&Reply::Body(page(&first, Some("c1")))).is_ok());
    assert!(!c.is_finished());
    assert!(c.on_reply(&Reply::Body(page(&[], Some("c2")))).is_ok());
    assert!(c.is_finished());
    assert_eq!(c.next_url(), None);
    assert_eq!(ids(c.items()), vec!["k1".to_string()]);
}

#[test]
fn ready_items_keep_their_order() {
    let mut c = Collector::new(VideoKind::Vod, "1");
    let items = vec![vod_json("a", "x"), vod_json("b", ""), vod_json("c", "y"), vod_json("d", "")];
    assert!(c.on_reply(&Reply::Body(page(&items, None))).is_ok());
    assert_eq!(ids(c.items()), vec!["a".to_string(), "c".to_string()]);
}

#[test]
fn keep_ready_drops_items_without_thumbnail() {
    let items: Vec<VideoType> = ["x", "", "z"]
        .iter()
        .enumerate()
        .map(|(i, t)| VideoType::Vod(vod_from_json(&vod_json(&i.to_string(), t)).unwrap()))
        .collect();
    let kept = keep_ready(items);
    assert_eq!(ids(&kept), vec!["0".to_string(), "2".to_string()]);
    assert!(kept.iter().all(|v| v.is_ready()));
}

#[test]
fn clip_listing_address_and_cursor() {
    assert_eq!(
        page_url(VideoKind::Clip, "42", &None),
        "https://api.twitch.tv/helix/clips?broadcaster_id=42&first=100"
    );
    assert_eq!(
        page_url(VideoKind::Clip, "42", &Some("abc".to_string())),
        "https://api.twitch.tv/helix/clips?broadcaster_id=42&first=100&after=abc"
    );
}

#[test]
fn no_connection_ends_listing() {
    let mut c = Collector::new(VideoKind::Vod, "1");
    let e = c.on_reply(&Reply::NoConnection("refused".to_string())).unwrap_err();
    assert_eq!(e.code, ExitCode::NoConnection);
    assert!(e.msg.contains("refused"));
    assert!(c.is_finished());
}

#[test]
fn unreadable_or_malformed_page_is_a_parse_error() {
    let mut c = Collector::new(VideoKind::Vod, "1");
    let e = c.on_reply(&Reply::Unreadable("cut".to_string())).unwrap_err();
    assert_eq!(e.code, ExitCode::CannotParseResponse);

    let mut c = Collector::new(VideoKind::Vod, "1");
    let e = c.on_reply(&Reply::Body("not json".to_string())).unwrap_err();
    assert_eq!(e.code, ExitCode::CannotParseResponse);

    let mut c = Collector::new(VideoKind::Vod, "1");
    let e = c.on_reply(&Reply::Body("{\"pagination\":{}}".to_string())).unwrap_err();
    assert_eq!(e.code, ExitCode::CannotParseResponse);

    let mut c = Collector::new(VideoKind::Vod, "1");
    let bad = "{\"data\":[{\"id\":\"a\"}]}".to_string();
    let e = c.on_reply(&Reply::Body(bad)).unwrap_err();
    assert_eq!(e.code, ExitCode::CannotParseResponse);
    assert!(c.is_finished());
}

#[test]
fn missing_pagination_ends_listing() {
    let mut c = Collector::new(VideoKind::Vod, "1");
    let body = format!("{{\"data\":[{}]}}", vod_json("a", "x"));
    assert!(c.on_reply(&Reply::Body(body)).is_ok());
    assert!(c.is_finished());
    assert_eq!(c.items().len(), 1);
}

#[test]
fn endless_cursors_hit_the_page_limit() {
    let mut c = Collector::new(VideoKind::Vod, "1");
    let body = page(&[vod_json("a", "x")], Some("same"));
    let mut last = Ok(());
    while !c.is_finished() {
        last = c.on_reply(&Reply::Body(body.clone()));
    }
    assert_eq!(c.pages(), MAX_PAGES);
    assert_eq!(last.unwrap_err().code, ExitCode::TooManyPages);
}

#[test]
fn page_reading_gives_items_and_cursor() {
    let body = page(&[clip_json("k", "x", "30")], Some("n"));
    let p = read_page(&body, VideoKind::Clip).unwrap();
    assert_eq!(p.cursor, Some("n".to_string()));
    match &p.items[0] {
        VideoType::Clip(c) => {
            assert_eq!(c.duration, "30");
            assert_eq!(c.creator_name, "Bar");
        }
        VideoType::Vod(_) => panic!("expected a clip"),
    }
    assert!(read_page(&body, VideoKind::Vod).is_none());
}

#[test]
fn clip_duration_must_be_a_number() {
    let c = clip_from_json(&clip_json("k", "x", "12.25")).unwrap();
    assert_eq!(c.duration, "12.25");
    assert_eq!(c.view_count, 3);
    assert!(clip_from_json(&clip_json("k", "x", "\"12\"")).is_none());
}

#[test]
fn vod_record_reads_every_field() {
    let v = vod_from_json(&vod_json("v1", "http://t/1.jpg")).unwrap();
    assert_eq!(v.id, "v1");
    assert_eq!(v.title, "tv1");
    assert_eq!(v.duration, "1h2m3s");
    assert_eq!(v.view_count, 7);
    assert_eq!(v.thumbnail_url, "http://t/1.jpg");
    assert_eq!(v.user_login, "foo");
    assert!(vod_from_json("[1,2]").is_none());
}
