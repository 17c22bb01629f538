use dotfiles::connman::{find_connected_service, ConnmanBlock, ConnmanEvent, ConnmanState};
use dotfiles::playback::{check_art_url, url_to_handle, Metadata, ParsedUrl, PlaybackBlock, PlaybackStatus};
use dotfiles::time::TimeBlock;

fn services(list: &[(&str, &str)]) -> Vec<(String, String)> {
    list.iter().map(|(s, n)| (s.to_string(), n.to_string())).collect()
}

fn clock() -> Option<TimeBlock> {
    Some(TimeBlock::new(true, vec!["ntp.example".to_owned()], String::new(), String::new()))
}

#[test]
fn connman_states() {
    assert_eq!(ConnmanState::from_str("idle"), Ok(ConnmanState::Idle));
    assert_eq!(ConnmanState::from_str("ready"), Ok(ConnmanState::Ready));
    assert_eq!(ConnmanState::from_str("online"), Ok(ConnmanState::Online));
    assert_eq!(ConnmanState::from_str("Online"), Ok(ConnmanState::Offline));
    assert_eq!(ConnmanState::from_str("failure"), Ok(ConnmanState::Offline));
    assert_eq!(ConnmanState::default(), ConnmanState::Offline);
    assert_eq!(ConnmanState::Online.icon(), "\u{f015f} ");
}

#[test]
fn connected_service_is_first_connected() {
    let s = services(&[("idle", "a"), ("online", "b"), ("ready", "c")]);
    assert_eq!(find_connected_service(&s), "b");
    assert_eq!(find_connected_service(&services(&[("idle", "a")])), "");
}

#[test]
fn connman_new_sets_clock_when_online() {
    let mut time = clock();
    let (block, cmd) = ConnmanBlock::new("online", &services(&[("online", "wifi")]), &mut time);
    assert_eq!(block.online, ConnmanState::Online);
    assert_eq!(block.connected_service, "wifi");
    assert_eq!(cmd.unwrap(), "doas ntpdate ntp.example; doas hwclock -w");
    assert!(time.unwrap().is_time_updated);
    let mut none: Option<TimeBlock> = None;
    let (_, cmd) = ConnmanBlock::new("online", &Vec::new(), &mut none);
    assert!(cmd.is_none());
    let mut offline_clock = clock();
    let (b, cmd) = ConnmanBlock::new("offline", &Vec::new(), &mut offline_clock);
    assert!(cmd.is_none());
    assert_eq!(b.online, ConnmanState::Offline);
}

#[test]
fn connman_state_changes() {
    let mut time = clock();
    let (mut block, _) = ConnmanBlock::new("idle", &Vec::new(), &mut time);
    assert_eq!(block.query_connman("Powered", "x", &mut time), ConnmanEvent::Ignored);
    assert_eq!(block.query_connman("State", "ready", &mut time), ConnmanEvent::NeedServices);
    let cmd = block.services_received(&services(&[("ready", "eth")]), &mut time);
    assert!(cmd.is_some());
    assert_eq!(block.connected_service, "eth");
    assert!(block.services_received(&services(&[("ready", "eth")]), &mut time).is_none());
    assert_eq!(block.query_connman("State", "idle", &mut time), ConnmanEvent::Disconnected);
    assert!(!time.as_ref().unwrap().is_time_updated);
    let mut f = String::new();
    block.fmt(&mut f);
    assert_eq!(f, "\u{f0164}   ");
}

#[test]
fn connman_text_when_online() {
    let mut none: Option<TimeBlock> = None;
    let (block, _) = ConnmanBlock::new("online", &services(&[("online", "home")]), &mut none);
    let mut f = String::new();
    block.fmt(&mut f);
    assert_eq!(f, "\u{f015f} home  ");
}

#[test]
fn playback_status_any_case() {
    assert_eq!(PlaybackStatus::from_str("Playing"), Ok(PlaybackStatus::Playing));
    assert_eq!(PlaybackStatus::from_str("  PAUSED\n"), Ok(PlaybackStatus::Paused));
    assert_eq!(PlaybackStatus::from_str(""), Ok(PlaybackStatus::Stopped));
    assert_eq!(PlaybackStatus::from_str("stopped"), Ok(PlaybackStatus::Stopped));
    assert_eq!(PlaybackStatus::from_lowercased(" playing "), PlaybackStatus::Playing);
    assert_eq!(PlaybackStatus::default(), PlaybackStatus::Stopped);
}

fn entries(list: &[(&str, &str)]) -> Vec<(String, String)> {
    services(list)
}

#[test]
fn art_urls() {
    let u = ParsedUrl::parse("file:///home/me/My%20Art.png").unwrap();
    assert_eq!(u.scheme, "file");
    assert_eq!(url_to_handle(&u), Some("/home/me/My Art.png".to_owned()));
    let web = ParsedUrl::parse("https://example.org/a.png").unwrap();
    assert_eq!(url_to_handle(&web), None);
    assert!(ParsedUrl::parse("not a url").is_none());
    assert!(check_art_url("file:///ok.png"));
    assert!(check_art_url("not a url"));
}

#[test]
fn playback_new_reads_metadata() {
    let meta = entries(&[
        ("xesam:title", "Song"),
        ("xesam:album", "Album"),
        ("xesam:albumArtist", "Band"),
        ("xesam:artist", "Singer"),
        ("mpris:artUrl", "file:///tmp/cover%2Ejpg"),
        ("xesam:genre", "Rock"),
    ]);
    let b = PlaybackBlock::new("Playing", Some(&meta));
    assert_eq!(b.playing, PlaybackStatus::Playing);
    assert_eq!(b.song_metadata.title, "Song");
    assert_eq!(b.song_metadata.album, "Album");
    assert_eq!(b.song_metadata.album_artist, "Band");
    assert_eq!(b.song_metadata.artist, "Singer");
    assert_eq!(b.album_art, Some("/tmp/cover.jpg".to_owned()));
    let mut f = String::new();
    b.fmt(&mut f);
    assert_eq!(f, " \u{f040a} Song");
}

#[test]
fn playback_stop_forgets_song() {
    let mut b = PlaybackBlock::new("Playing", Some(&entries(&[("xesam:title", "Song")])));
    assert!(!b.query_media(None, None));
    assert!(b.query_media(Some(&entries(&[("mpris:artUrl", "https://x.org/a.png")])), None));
    assert_eq!(b.album_art, None);
    assert!(b.query_media(None, Some("Stopped")));
    assert_eq!(b.song_metadata.title, "");
    let mut f = String::new();
    b.fmt(&mut f);
    assert_eq!(f, " \u{f04db} ");
    let m = Metadata::default();
    assert_eq!(m.title, "");
}

#[test]
fn playback_checked_query() {
    let mut b = PlaybackBlock::new("Paused", None);
    assert_eq!(b.try_query_media(Some(&entries(&[("xesam:title", "T")])), Some("playing")), Some(true));
    assert_eq!(b.playing, PlaybackStatus::Playing);
    assert_eq!(b.try_query_media(None, None), Some(false));
}

#[test]
fn checked_query_applies_entries_and_stop() {
    let mut b = PlaybackBlock::new("Playing", None);
    let e = entries(&[("xesam:title", "Song"), ("xesam:artist", "Band"), ("xesam:album", "LP")]);
    assert_eq!(b.try_query_media(Some(&e), None), Some(true));
    assert_eq!(b.song_metadata.title, "Song");
    assert_eq!(b.song_metadata.artist, "Band");
    assert_eq!(b.song_metadata.album, "LP");
    assert_eq!(b.playing, PlaybackStatus::Playing);
    assert_eq!(b.try_query_media(None, Some(" STOPPED ")), Some(true));
    assert_eq!(b.playing, PlaybackStatus::Stopped);
    assert_eq!(b.song_metadata.title, "");
    assert_eq!(b.album_art, None);
}

#[test]
fn clock_command_names_the_configured_servers() {
    let servers = vec!["a.example".to_owned(), "b.example".to_owned(), "c.example".to_owned()];
    let mut time = Some(TimeBlock::new(true, servers.clone(), "%H".to_owned(), "%d".to_owned()));
    let (_, cmd) = ConnmanBlock::new("ready", &Vec::new(), &mut time);
    let cmd = cmd.unwrap();
    for s in &servers {
        assert_eq!(cmd.matches(s.as_str()).count(), 1);
    }
    let t = time.unwrap();
    let mut kept = t.time_servers.clone();
    kept.sort();
    assert_eq!(kept, servers);
    assert_eq!(t.time_fmt, "%H");
    assert_eq!(t.date_fmt, "%d");
    assert!(t.update_time_ntp);
}
