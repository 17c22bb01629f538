use dotfiles::battery::PropertyChanges;
use dotfiles::connman::ConnmanState;
use dotfiles::playback::PlaybackStatus;
use dotfiles::statusline::{push_clock, ClockFields, SharedData};
use dotfiles::upower::BatteryType;

fn clock(hour: u32, minute: u32, month: u32, day: u32, year: i32) -> ClockFields {
    ClockFields { hour, minute, month, day, year }
}

fn clock_string(c: &ClockFields) -> String {
    let mut s = String::new();
    push_clock(&mut s, c);
    s
}

#[test]
fn clock_uses_a_twelve_hour_dial() {
    assert_eq!(
        clock_string(&clock(0, 5, 3, 7, 2024)),
        "\u{f144a} 12:05 \u{e0b1} \u{f00f6} 03/07/2024 \u{e0b1} "
    );
    assert_eq!(
        clock_string(&clock(13, 59, 12, 31, 1999)),
        "\u{f143f} 01:59 \u{e0b1} \u{f00f6} 12/31/1999 \u{e0b1} "
    );
    assert_eq!(
        clock_string(&clock(12, 0, 1, 1, 2000)),
        "\u{f144a} 12:00 \u{e0b1} \u{f00f6} 01/01/2000 \u{e0b1} "
    );
    assert_eq!(
        clock_string(&clock(9, 30, 10, 15, 987)),
        "\u{f1447} 09:30 \u{e0b1} \u{f00f6} 10/15/0987 \u{e0b1} "
    );
    assert_eq!(
        clock_string(&clock(23, 1, 2, 28, -5)),
        "\u{f1449} 11:01 \u{e0b1} \u{f00f6} 02/28/-0005 \u{e0b1} "
    );
}

#[test]
fn empty_line() {
    let d = SharedData::new();
    assert_eq!(
        d.status_line(&clock(0, 0, 1, 1, 2024), &Vec::new()),
        "\u{f144a} 12:00 \u{e0b1} \u{f00f6} 01/01/2024 \u{e0b1} \u{f00da} 0%  \u{f05aa}   \u{f04db} "
    );
}

#[test]
fn full_line() {
    let mut d = SharedData::new();
    d.brightness = 50;
    let entries = vec![
        ("xesam:title".to_string(), "Song".to_string()),
        ("xesam:album".to_string(), "Album".to_string()),
        ("xesam:artist".to_string(), "Band".to_string()),
    ];
    d.start_player("Playing", Some(&entries));
    assert_eq!(d.playing, PlaybackStatus::Playing);
    let services = vec![
        ("idle".to_string(), "Other".to_string()),
        ("online".to_string(), "Home".to_string()),
    ];
    let command = d.start_network("online", &services);
    assert!(command.is_some());
    assert!(d.is_time_updated);
    d.device_added("/bat0", BatteryType::Battery, 42, 2, 0, 3600);
    d.device_added("/ac", BatteryType::LinePower, 100, 1, 0, 0);
    d.device_added("/mouse", BatteryType::Mouse, 80, 0, 0, 0);
    let line = d.status_line(
        &clock(14, 7, 6, 1, 2024),
        &vec!["1.0 hours ".to_string(), "unused".to_string()],
    );
    assert_eq!(
        line,
        "\u{f1440} 02:07 \u{e0b1} \u{f00f6} 06/01/2024 \u{e0b1} \u{f00dd} 50%  \
         \u{f007d} 42% 1.0 hours \u{f0046} \u{e0b1} \
         \u{f037d} \u{f0081} 80% \u{e0b1} \
         \u{f015f} Home  \u{f040a} Song - Band"
    );
}

#[test]
fn stopping_forgets_the_song() {
    let mut d = SharedData::new();
    let entries = vec![
        ("xesam:title".to_string(), "A".to_string()),
        ("xesam:artist".to_string(), "B".to_string()),
    ];
    d.player_changed(Some(&entries), Some("paused"));
    assert_eq!(d.playing, PlaybackStatus::Paused);
    assert_eq!(d.song_metadata, ("A".to_string(), "B".to_string()));
    d.player_changed(None, Some("Stopped"));
    assert_eq!(d.playing, PlaybackStatus::Stopped);
    assert_eq!(d.song_metadata, (String::new(), String::new()));
    d.player_changed(Some(&entries), None);
    assert_eq!(d.playing, PlaybackStatus::Stopped);
    assert_eq!(d.song_metadata, ("A".to_string(), "B".to_string()));
}

#[test]
fn clock_is_set_once_per_connection() {
    let mut d = SharedData::new();
    assert_eq!(d.connman_property_changed("Powered", "true"), (false, false));
    assert_eq!(d.connman_property_changed("State", "ready"), (true, false));
    assert_eq!(d.online, ConnmanState::Ready);
    let services = vec![("ready".to_string(), "Cafe".to_string())];
    let command = d.services_received(&services).unwrap();
    assert!(command.starts_with("doas ntpdate "));
    assert!(command.ends_with("; doas hwclock -w"));
    assert_eq!(command.matches(".nist.gov").count(), 15);
    assert_eq!(command.matches(".colorado.edu").count(), 3);
    assert_eq!(d.connected_service, "Cafe");
    assert!(d.is_time_updated);
    assert_eq!(d.connman_property_changed("State", "online"), (true, false));
    assert_eq!(d.services_received(&services), None);
    assert_eq!(d.connman_property_changed("State", "idle"), (false, true));
    assert!(!d.is_time_updated);
    assert_eq!(d.connman_property_changed("State", "online"), (true, false));
    assert!(d.services_received(&services).is_some());
}

#[test]
fn offline_start_does_not_set_the_clock() {
    let mut d = SharedData::new();
    let services = vec![("ready".to_string(), "Cafe".to_string())];
    assert_eq!(d.start_network("offline", &services), None);
    assert!(!d.is_time_updated);
    assert_eq!(d.connected_service, "Cafe");
}

#[test]
fn power_sources_come_and_go() {
    let mut d = SharedData::new();
    d.device_added("/bat0", BatteryType::Battery, 42, 2, 0, 3600);
    let changes = PropertyChanges {
        percentage: Some(41),
        state: Some(1),
        time_to_empty: None,
        time_to_full: Some(0),
    };
    assert!(d.battery_changed("/bat0", &changes));
    assert!(!d.battery_changed("/bat9", &changes));
    let shown = d.bat_devices.get("/bat0").unwrap();
    assert_eq!(shown.percentage, 41);
    d.device_removed("/bat0");
    assert!(d.bat_devices.get("/bat0").is_none());
    assert_eq!(d.bat_devices.len(), 0);
}
