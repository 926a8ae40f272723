use vodbot::json::{find_member, number_member, string_member, u64_member};
use vodbot::pull::{Action, ContentKind, Event, Pull};
use vodbot::twitch::{
    channels_url, get_access_token, get_channels, token_url, Reply, VideoType,
};
use vodbot::util::{Config, ExitCode};

fn config(channels: &[&str]) -> Config {
    Config {
        twitch_channels: channels.iter().map(|c| c.to_string()).collect(),
        twitch_client_id: "cid".to_string(),
        twitch_client_secret: "secret".to_string(),
        stage_timezone: "US/Eastern".to_string(),
        stage_format: std::collections::HashMap::new(),
        youtube_client_path: "yt.json".to_string(),
        youtube_pickle_path: "yt.pikl".to_string(),
        temp_dir: "/v/temp".to_string(),
        stage_dir: "/v/stage".to_string(),
        vods_dir: "/v/vods".to_string(),
        clips_dir: "/v/clips".to_string(),
    }
}

fn channel_json(id: &str, login: &str) -> String {
    format!(
        "{{\"id\":\"{}\",\"login\":\"{}\",\"display_name\":\"{}\",\"broadcaster_type\":\"\",\"description\":\"d\",\"view_count\":5,\"created_at\":\"2020-01-01T00:00:00Z\"}}",
        id, login, login.to_uppercase()
    )
}

fn vod_json(id: &str, thumb: &str) -> String {
    format!(
        "{{\"id\":\"{}\",\"title\":\"t\",\"created_at\":\"2021-01-01T00:00:00Z\",\"duration\":\"3m\",\"view_count\":1,\"thumbnail_url\":\"{}\",\"user_id\":\"123\",\"user_name\":\"Foo\",\"user_login\":\"foo\"}}",
        id, thumb
    )
}

fn expect_dir(a: Action, want_root: &str, want_channel: Option<&str>) {
    match a {
        Action::CreateDir { root, channel } => {
            assert_eq!(root, want_root);
            assert_eq!(channel.as_deref(), want_channel);
        }
        _ => panic!("expected a directory"),
    }
}

fn expect_get(a: Action, want_url: &str, want_bearer: &str) {
    match a {
        Action::Get { url, client_id, bearer } => {
            assert_eq!(url, want_url);
            assert_eq!(client_id, "cid");
            assert_eq!(bearer, want_bearer);
        }
        _ => panic!("expected a GET"),
    }
}

fn body(s: String) -> Event {
    Event::Replied(Reply::Body(s))
}

#[test]
fn one_channel_one_ready_vod() {
    let mut run = Pull::new(config(&["foo"]), ContentKind::Vods);
    expect_dir(run.start(), "/v/temp", None);
    expect_dir(run.on_event(Event::DirCreated), "/v/vods", None);
    expect_dir(run.on_event(Event::DirCreated), "/v/clips", None);
    match run.on_event(Event::DirCreated) {
        Action::Post { url } => assert_eq!(
            url,
            "https://id.twitch.tv/oauth2/token?client_id=cid&client_secret=secret&grant_type=client_credentials"
        ),
        _ => panic!("expected the token request"),
    }
    let a = run.on_event(body("{\"access_token\":\"tok\",\"expires_in\":5}".to_string()));
    expect_get(a, "https://api.twitch.tv/helix/users?login=foo", "Bearer tok");
    let a = run.on_event(body(format!("{{\"data\":[{}]}}", channel_json("123", "foo"))));
    expect_dir(a, "/v/vods", Some("foo"));
    let a = run.on_event(Event::DirCreated);
    expect_get(
        a,
        "https://api.twitch.tv/helix/videos?user_id=123&first=100&type=archive",
        "Bearer tok",
    );
    let page = format!("{{\"data\":[{},{}],\"pagination\":{{}}}}", vod_json("a", "x"), vod_json("b", ""));
    match run.on_event(body(page)) {
        Action::Finish(r) => assert!(r.is_ok()),
        _ => panic!("expected the end of the run"),
    }
    assert!(run.is_done());
    let (videos, report) = run.into_results();
    assert_eq!(report.channels.len(), 1);
    assert_eq!(report.channels[0].login, "foo");
    assert_eq!(report.channels[0].vods, 1);
    assert_eq!(report.channels[0].clips, 0);
    assert_eq!(report.total_vods, 1);
    assert_eq!(videos.len(), 1);
    match &videos[0] {
        VideoType::Vod(v) => assert_eq!(v.thumbnail_url, "x"),
        VideoType::Clip(_) => panic!("expected a broadcast"),
    }
}

#[test]
fn both_kinds_use_both_roots_per_channel() {
    let mut run = Pull::new(config(&["foo", "bar"]), ContentKind::Both);
    run.start();
    run.on_event(Event::DirCreated);
    run.on_event(Event::DirCreated);
    run.on_event(Event::DirCreated);
    run.on_event(body("{\"access_token\":\"t\"}".to_string()));
    let a = run.on_event(body(format!(
        "{{\"data\":[{},{}]}}",
        channel_json("1", "foo"),
        channel_json("2", "bar")
    )));
    expect_dir(a, "/v/vods", Some("foo"));
    run.on_event(Event::DirCreated);
    let a = run.on_event(body(format!("{{\"data\":[{}]}}", vod_json("a", "x"))));
    expect_dir(a, "/v/clips", Some("foo"));
    let a = run.on_event(Event::DirCreated);
    expect_get(a, "https://api.twitch.tv/helix/clips?broadcaster_id=1&first=100", "Bearer t");
    let a = run.on_event(body("{\"data\":[]}".to_string()));
    expect_dir(a, "/v/vods", Some("bar"));
    assert_eq!(run.report().channels.len(), 1);
    assert_eq!(run.report().channels[0].vods, 1);
    assert_eq!(run.report().channels[0].clips, 0);
    assert_eq!(run.videos().len(), 1);
}

#[test]
fn empty_channel_list_makes_no_request() {
    let mut run = Pull::new(config(&[]), ContentKind::Both);
    match run.start() {
        Action::Finish(Err(e)) => assert_eq!(e.code, ExitCode::MissingConfigChannels),
        _ => panic!("expected the run to stop"),
    }
    assert!(run.is_done());
    let e = channels_url(&Vec::new()).unwrap_err();
    assert_eq!(e.code, ExitCode::MissingConfigChannels);
}

#[test]
fn failed_directory_ends_run() {
    let mut run = Pull::new(config(&["foo"]), ContentKind::Clips);
    run.start();
    match run.on_event(Event::DirFailed("denied".to_string())) {
        Action::Finish(Err(e)) => {
            assert_eq!(e.code, ExitCode::CannotCreateDir);
            assert!(e.msg.contains("denied"));
        }
        _ => panic!("expected the run to stop"),
    }
}

#[test]
fn token_failure_ends_run() {
    let mut run = Pull::new(config(&["foo"]), ContentKind::Clips);
    run.start();
    run.on_event(Event::DirCreated);
    run.on_event(Event::DirCreated);
    run.on_event(Event::DirCreated);
    match run.on_event(Event::Replied(Reply::NoConnection("down".to_string()))) {
        Action::Finish(Err(e)) => assert_eq!(e.code, ExitCode::NoConnection),
        _ => panic!("expected the run to stop"),
    }
}

#[test]
fn token_reply_without_access_token() {
    let e = get_access_token(&Reply::Body("{\"token\":\"x\"}".to_string())).unwrap_err();
    assert_eq!(e.code, ExitCode::CannotFindAccessToken);
    let e = get_access_token(&Reply::Body("{\"access_token\":5}".to_string())).unwrap_err();
    assert_eq!(e.code, ExitCode::CannotFindAccessToken);
    let e = get_access_token(&Reply::Body("[1]".to_string())).unwrap_err();
    assert_eq!(e.code, ExitCode::CannotFindAccessToken);
}

#[test]
fn token_reply_cases() {
    let t = get_access_token(&Reply::Body("{\"access_token\":\"a\\\"b\"}".to_string())).unwrap();
    assert_eq!(t, "a\"b");
    let e = get_access_token(&Reply::Body("{access_token}".to_string())).unwrap_err();
    assert_eq!(e.code, ExitCode::CannotParseResponse);
    let e = get_access_token(&Reply::Unreadable("x".to_string())).unwrap_err();
    assert_eq!(e.code, ExitCode::CannotParseResponse);
    let e = get_access_token(&Reply::NoConnection("x".to_string())).unwrap_err();
    assert_eq!(e.code, ExitCode::NoConnection);
    assert_eq!(
        token_url("i", "s"),
        "https://id.twitch.tv/oauth2/token?client_id=i&client_secret=s&grant_type=client_credentials"
    );
}

#[test]
fn channel_lookup_address_repeats_login() {
    let logins = vec!["a".to_string(), "b".to_string(), "c".to_string()];
    assert_eq!(
        channels_url(&logins).unwrap(),
        "https://api.twitch.tv/helix/users?login=a&login=b&login=c"
    );
    assert_eq!(
        channels_url(&vec!["solo".to_string()]).unwrap(),
        "https://api.twitch.tv/helix/users?login=solo"
    );
}

#[test]
fn channel_lookup_replies() {
    let r = get_channels(&Reply::Body(format!("{{\"data\":[{}]}}", channel_json("7", "seven")))).unwrap();
    assert_eq!(r.len(), 1);
    assert_eq!(r[0].id, "7");
    assert_eq!(r[0].display_name, "SEVEN");
    assert_eq!(r[0].view_count, 5);
    assert!(get_channels(&Reply::Body("{\"data\":[]}".to_string())).unwrap().is_empty());
    let e = get_channels(&Reply::Body("{}".to_string())).unwrap_err();
    assert_eq!(e.code, ExitCode::CannotParseResponse);
    let e = get_channels(&Reply::Body("{\"data\":{}}".to_string())).unwrap_err();
    assert_eq!(e.code, ExitCode::CannotParseResponse);
    let e = get_channels(&Reply::NoConnection("x".to_string())).unwrap_err();
    assert_eq!(e.code, ExitCode::NoConnection);
}

#[test]
fn content_kind_from_argument() {
    assert_eq!(ContentKind::from_arg(None), Some(ContentKind::Both));
    assert_eq!(ContentKind::from_arg(Some("vods")), Some(ContentKind::Vods));
    assert_eq!(ContentKind::from_arg(Some("clips")), Some(ContentKind::Clips));
    assert_eq!(ContentKind::from_arg(Some("both")), Some(ContentKind::Both));
    assert_eq!(ContentKind::from_arg(Some("all")), None);
    assert!(ContentKind::Vods.includes_vods() && !ContentKind::Vods.includes_clips());
    assert!(ContentKind::Both.includes_vods() && ContentKind::Both.includes_clips());
}

fn members(pairs: &[(&str, &str)]) -> Vec<(String, String)> {
    pairs.iter().map(|(k, v)| (k.to_string(), v.to_string())).collect()
}

#[test]
fn member_readers() {
    let m = members(&[("b", "2"), ("a", "\"x\\ny\""), ("b", "3"), ("d", "1.5"), ("s", "\"1.5\"")]);
    assert_eq!(find_member(&m, &"b".to_string()), Some("3".to_string()));
    assert_eq!(find_member(&m, &"c".to_string()), None);
    assert_eq!(string_member(&m, "a"), Some("x\ny".to_string()));
    assert_eq!(string_member(&m, "b"), None);
    assert_eq!(u64_member(&m, "b"), Some(3));
    assert_eq!(u64_member(&m, "d"), None);
    assert_eq!(u64_member(&members(&[("n", "-1")]), "n"), None);
    assert_eq!(number_member(&m, "d"), Some("1.5".to_string()));
    assert_eq!(number_member(&m, "s"), None);
}

#[test]
fn repeated_member_name_keeps_last_value() {
    let body = "{\"access_token\":\"first\",\"access_token\":\"second\"}".to_string();
    assert_eq!(get_access_token(&Reply::Body(body)).unwrap(), "second");
    let spaced = " { \"access_token\" : \"t\" } ".to_string();
    assert_eq!(get_access_token(&Reply::Body(spaced)).unwrap(), "t");
}

#[test]
fn exit_code_numbers() {
    assert_eq!(ExitCode::_CleanExit.number(), 0);
    assert_eq!(ExitCode::CannotCreateDir.number(), 1);
    assert_eq!(ExitCode::MissingConfigChannels.number(), 5);
    assert_eq!(ExitCode::TooManyPages.number(), 9);
}
