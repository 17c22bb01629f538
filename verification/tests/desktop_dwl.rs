use dotfiles::desktop::{strip_field_codes, DesktopCommand, Launcher, LauncherAction, LauncherKey};
use dotfiles::dwl::{lock_requested, WobCommand};
use dotfiles::settings::{
    browser_prefix, default_bar_show_time, default_flag, default_text, setting_key, setting_reaction, split_font,
    SettingKind, SettingReaction,
};
use dotfiles::supervisor::{
    is_termination, on_signal, scanner_ready, session_environment, svscan_argv, watch_interest, PollInterest,
    SupervisorAction,
};

#[test]
fn field_codes_removed() {
    assert_eq!(strip_field_codes("firefox %u"), "firefox ");
    assert_eq!(strip_field_codes("app %f --flag %U x"), "app  --flag  x");
    assert_eq!(strip_field_codes("plain"), "plain");
    assert_eq!(strip_field_codes("%%"), "");
    assert_eq!(strip_field_codes("%é"), "");
}

#[test]
fn trailing_percent_takes_previous_char() {
    assert_eq!(strip_field_codes("abc%"), "ab");
    assert_eq!(strip_field_codes("%"), "");
    assert_eq!(strip_field_codes("x %"), "x");
}

#[test]
fn stripped_command_has_no_percent() {
    for s in ["%a%b%c", "a%%%", "%%%%%", "ab%c%", "%"] {
        assert!(!strip_field_codes(s).contains('%'));
    }
}

#[test]
fn stripping_twice_is_stripping_once() {
    for s in ["%a%b%c", "a%%%", "run %U now", "plain", "x%"] {
        let once = strip_field_codes(s);
        assert_eq!(strip_field_codes(&once), once);
    }
}

#[test]
fn desktop_command_from_entry() {
    let d = DesktopCommand::from_entry("Firefox", "firefox %u");
    assert_eq!(d.as_str(), "Firefox");
    assert_eq!(d.command, "firefox ");
}

#[test]
fn launcher_typing_and_running() {
    let mut l = Launcher::new("run", "");
    let matches = vec!["foot".to_owned(), "firefox".to_owned()];
    assert_eq!(l.press_key(LauncherKey::Other, Some("f"), &matches), LauncherAction::Relayout);
    assert_eq!(l.press_key(LauncherKey::Other, Some("o"), &matches), LauncherAction::Relayout);
    assert_eq!(l.current_input, "fo");
    assert_eq!(l.press_key(LauncherKey::Other, None, &matches), LauncherAction::Nothing);
    assert_eq!(l.press_key(LauncherKey::BackSpace, None, &matches), LauncherAction::Relayout);
    assert_eq!(l.current_input, "f");
    assert_eq!(l.press_key(LauncherKey::Down, None, &matches), LauncherAction::Relayout);
    assert_eq!(l.selected, 1);
    assert_eq!(l.press_key(LauncherKey::Return, None, &matches), LauncherAction::Run("firefox".to_owned()));
    assert_eq!(l.press_key(LauncherKey::Up, None, &matches), LauncherAction::Relayout);
    assert_eq!(l.selected, 0);
    assert_eq!(l.press_key(LauncherKey::Escape, None, &matches), LauncherAction::Close);
}

#[test]
fn launcher_falls_back_to_default() {
    let mut l = Launcher::new("browser", "firedragon ");
    l.press_key(LauncherKey::Other, Some("example.org"), &Vec::new());
    assert_eq!(
        l.press_key(LauncherKey::Return, None, &Vec::new()),
        LauncherAction::Run("firedragon example.org".to_owned())
    );
    let mut empty = Launcher::new("run", "");
    assert_eq!(empty.press_key(LauncherKey::BackSpace, None, &Vec::new()), LauncherAction::Relayout);
    assert_eq!(empty.current_input, "");
}

#[test]
fn locking() {
    assert!(lock_requested(Some("org.freedesktop.login1.Session"), None));
    assert!(lock_requested(Some("org.freedesktop.login1.Manager"), Some(true)));
    assert!(!lock_requested(Some("org.freedesktop.login1.Manager"), Some(false)));
    assert!(!lock_requested(Some("org.freedesktop.login1.Manager"), None));
    assert!(!lock_requested(Some("org.example"), Some(true)));
    assert!(!lock_requested(None, Some(true)));
}

#[test]
fn wob_icons_and_commands() {
    assert_eq!(char::from(WobCommand::VolumeUp), '\u{f057e}');
    assert_eq!(WobCommand::LightDown.icon(), '\u{f00e0}');
    assert_eq!(char::from(WobCommand::Overlay), ' ');
    let v = WobCommand::VolumeDown.level_commands().unwrap();
    assert!(v.adjust.is_none());
    assert_eq!(v.query.program, "pamixer");
    assert_eq!(v.query.args, vec!["-d", "5", "--get-volume"]);
    let l = WobCommand::LightUp.level_commands().unwrap();
    let a = l.adjust.unwrap();
    assert_eq!(a.program, "light");
    assert_eq!(a.args, vec!["-A", "5"]);
    assert_eq!(l.query.args, vec!["-G"]);
    assert!(WobCommand::LaunchApp.level_commands().is_none());
}

#[test]
fn supervisor_signals() {
    assert!(is_termination(15));
    assert!(is_termination(2));
    assert!(!is_termination(17));
    assert_eq!(on_signal(15, 1, 42), SupervisorAction::StopChildAndExit);
    assert_eq!(on_signal(17, 42, 42), SupervisorAction::Exit);
    assert_eq!(on_signal(17, 7, 42), SupervisorAction::Continue);
    assert_eq!(on_signal(1, 42, 42), SupervisorAction::Continue);
    assert!(scanner_ready(b"ready\n"));
    assert!(!scanner_ready(&[0u8; 512]));
}

#[test]
fn font_setting() {
    assert_eq!(
        split_font("FiraCode Nerd Font 14"),
        Some(("FiraCode Nerd Font".to_owned(), "14".to_owned()))
    );
    assert_eq!(split_font("Mono"), None);
    assert_eq!(split_font(" 9"), Some((String::new(), "9".to_owned())));
    assert_eq!(browser_prefix("firedragon"), "firedragon ");
}

#[test]
fn service_runner_setup() {
    let env = session_environment(42, true);
    let names: Vec<&str> = env.iter().map(|p| p.0.as_str()).collect();
    assert_eq!(names, vec!["!", "WAYLAND_DISPLAY", "DISPLAY", "XDG_SESSION_TYPE", "XDG_CURRENT_DESKTOP"]);
    assert_eq!(env[0].1, "42");
    assert_eq!(env[1].1, "wayland-0");
    assert_eq!(env[4].1, "dwl");
    assert_eq!(session_environment(7, false), vec![("!".to_string(), "7".to_string())]);
    assert_eq!(svscan_argv(5, "/run/services"), vec!["s6-svscan", "-d", "5", "/run/services"]);
    assert_eq!(watch_interest(true, false), PollInterest::Readable);
    assert_eq!(watch_interest(false, true), PollInterest::Writable);
    assert_eq!(watch_interest(true, true), PollInterest::All);
    assert_eq!(watch_interest(false, false), PollInterest::Nothing);
}

#[test]
fn settings_schema() {
    assert_eq!(setting_key(SettingKind::Font), "/dotfiles/somebar/font");
    assert_eq!(setting_key(SettingKind::DividerHard), "/dotfiles/somebar/divider-hard");
    assert_eq!(setting_key(SettingKind::BarShowTime), "/dotfiles/somebar/bar-show-time");
    assert_eq!(default_text(SettingKind::Font), Some("FiraCode Nerd Font 14"));
    assert_eq!(default_text(SettingKind::DateFmt), Some("%m/%d/%y %A"));
    assert_eq!(default_text(SettingKind::TimeFmt), Some("%I:%M"));
    assert_eq!(default_text(SettingKind::Browser), Some("firedragon"));
    assert_eq!(default_text(SettingKind::TopBar), None);
    assert_eq!(default_flag(SettingKind::MediaBlock), Some(true));
    assert_eq!(default_flag(SettingKind::Divider), None);
    assert_eq!(default_bar_show_time(), 500);
}

#[test]
fn setting_reactions() {
    assert_eq!(setting_reaction(Some(SettingKind::Font), true), SettingReaction::ReloadFont);
    assert_eq!(setting_reaction(Some(SettingKind::BatteryBlock), false), SettingReaction::ToggleBlock);
    assert_eq!(setting_reaction(Some(SettingKind::TimeFmt), true), SettingReaction::Redraw);
    assert_eq!(setting_reaction(Some(SettingKind::TimeFmt), false), SettingReaction::Nothing);
    assert_eq!(setting_reaction(Some(SettingKind::TimeServers), true), SettingReaction::ResyncClock);
    assert_eq!(setting_reaction(Some(SettingKind::TimeServers), false), SettingReaction::Nothing);
    assert_eq!(setting_reaction(Some(SettingKind::PaddingY), false), SettingReaction::Relayout);
    assert_eq!(setting_reaction(Some(SettingKind::TopBar), false), SettingReaction::Reanchor);
    assert_eq!(setting_reaction(Some(SettingKind::Browser), false), SettingReaction::Store);
    assert_eq!(setting_reaction(None, true), SettingReaction::Nothing);
}
