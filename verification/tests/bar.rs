use dotfiles::bar::{block_id, select_block, shown_blocks, status_items, BarColor, StatusItem};
use dotfiles::desktop::{bookmark_entry, launcher_for, places_uri_command, Launcher};
use dotfiles::dwl::{BarMode, OverlayState, WobCommand};

fn view(items: &[StatusItem]) -> Vec<(String, BarColor)> {
    items.iter().map(|i| (i.content.clone(), i.color)).collect()
}

#[test]
fn items_right_to_left() {
    let blocks = vec![" media".to_string(), " net".to_string()];
    let items = status_items(&blocks, Some(("date", "time")), "|", BarColor::ActiveText);
    let texts: Vec<String> = items.iter().map(|i| i.content.clone()).collect();
    assert_eq!(texts, vec![" media", "|", " net", "|", "date", "|", "time"]);
    assert!(items.iter().all(|i| i.color == BarColor::ActiveText));
    let no_clock = status_items(&blocks, None, "|", BarColor::InactiveText);
    assert_eq!(no_clock.len(), 4);
    assert_eq!(no_clock[3].content, "|");
    assert!(status_items(&Vec::new(), None, "|", BarColor::ActiveText).is_empty());
}

#[test]
fn hover_ids() {
    assert_eq!(block_id(true, 0), 0);
    assert_eq!(block_id(true, 3), 6);
    assert_eq!(block_id(false, 0), 2);
    assert_eq!(block_id(false, 3), 8);
}

#[test]
fn highlight_moves() {
    let blocks = vec!["a".to_string(), "b".to_string(), "c".to_string()];
    let mut items = status_items(&blocks, None, "|", BarColor::ActiveText);
    let selected = select_block(&mut items, None, Some(2), "|", "#");
    assert_eq!(selected, Some(2));
    assert_eq!(
        view(&items),
        vec![
            ("a".to_string(), BarColor::ActiveText),
            ("#".to_string(), BarColor::ActiveText),
            ("b".to_string(), BarColor::InactiveBackground),
            ("#".to_string(), BarColor::ActiveBackground),
            ("c".to_string(), BarColor::ActiveText),
            ("|".to_string(), BarColor::ActiveText),
        ]
    );
    let selected = select_block(&mut items, selected, Some(0), "|", "#");
    assert_eq!(selected, Some(0));
    assert_eq!(
        view(&items),
        vec![
            ("a".to_string(), BarColor::InactiveBackground),
            ("#".to_string(), BarColor::ActiveBackground),
            ("b".to_string(), BarColor::ActiveText),
            ("|".to_string(), BarColor::ActiveText),
            ("c".to_string(), BarColor::ActiveText),
            ("|".to_string(), BarColor::ActiveText),
        ]
    );
    let selected = select_block(&mut items, selected, None, "|", "#");
    assert_eq!(selected, None);
    assert_eq!(view(&items)[0], ("a".to_string(), BarColor::ActiveText));
    assert_eq!(view(&items)[1], ("|".to_string(), BarColor::ActiveText));
    // A block past the end changes nothing.
    let before = view(&items);
    select_block(&mut items, None, Some(40), "|", "#");
    assert_eq!(view(&items), before);
}

#[test]
fn launcher_lines() {
    let mut l = launcher_for(WobCommand::LaunchApp, "firefox ").unwrap();
    assert_eq!(l.prompt, "run");
    assert_eq!(l.default, "");
    l.current_input.push_str("fi");
    assert_eq!(l.prompt_line(), "run: fi");
    let names: Vec<String> = (0..20).map(|i| format!("app{}", i)).collect();
    l.selected = 1;
    let shown = l.shown_entries(&names);
    assert_eq!(shown.len(), 15);
    assert_eq!(shown[0], ("app0".to_string(), false));
    assert_eq!(shown[1], ("app1".to_string(), true));
    assert_eq!(shown[14], ("app14".to_string(), false));
    let few = vec!["x".to_string()];
    assert_eq!(Launcher::new("run", "").shown_entries(&few), vec![("x".to_string(), true)]);
    let b = launcher_for(WobCommand::LaunchBrowser, "firedragon ").unwrap();
    assert_eq!(b.prompt, "browser");
    assert_eq!(b.default, "firedragon ");
    assert!(launcher_for(WobCommand::VolumeUp, "x").is_none());
}

#[test]
fn bookmark_commands() {
    assert_eq!(
        places_uri_command(".firedragon"),
        "echo file:$(realpath ~/.firedragon/*.default-release/places.sqlite)?immutable=true"
    );
    let e = bookmark_entry("Docs", "firedragon ", "https://example.org");
    assert_eq!(e.name, "Docs");
    assert_eq!(e.command, "firedragon https://example.org");
}

#[test]
fn unhover_restores_drawn_area() {
    let blocks = vec!["a".to_string(), "b".to_string()];
    let mut items = status_items(&blocks, Some(("d", "t")), "|", BarColor::ActiveText);
    let drawn = view(&items);
    for k in [0usize, 2, 4, 6] {
        let s = select_block(&mut items, None, Some(k), "|", "#");
        select_block(&mut items, s, None, "|", "#");
        assert_eq!(view(&items), drawn);
    }
}

#[test]
fn blocks_in_drawing_order() {
    let power = vec!["bat0".to_string(), "mouse".to_string()];
    assert_eq!(
        shown_blocks(Some("media"), Some("net"), Some(&power), Some("light")),
        vec!["media", "net", "bat0", "mouse", "light"]
    );
    assert_eq!(shown_blocks(None, Some("net"), None, Some("light")), vec!["net", "light"]);
    assert!(shown_blocks(None, None, Some(&Vec::new()), None).is_empty());
}

#[test]
fn level_bar_and_overlay() {
    let mut s = OverlayState::new();
    let e = s.key_command(WobCommand::VolumeUp);
    assert!(e.raise && e.start_hide_timer && !e.lower);
    assert_eq!(s.mode, BarMode::Level { icon: '\u{f057e}' });
    assert!(s.in_overlay);
    let e = s.key_command(WobCommand::LightDown);
    assert!(!e.raise && e.start_hide_timer);
    assert_eq!(s.mode, BarMode::Level { icon: '\u{f00e0}' });
    assert!(s.back_to_normal());
    assert_eq!(s, OverlayState::new());
    assert!(!s.back_to_normal());
    let e = s.key_command(WobCommand::Overlay);
    assert!(e.raise && !e.lower && s.in_overlay);
    let e = s.key_command(WobCommand::Overlay);
    assert!(!e.raise && e.lower && !s.in_overlay);
    let e = s.key_command(WobCommand::LaunchApp);
    assert!(e.grab_keyboard && !e.start_hide_timer);
    assert_eq!(s.mode, BarMode::Launcher);
    let e = s.key_command(WobCommand::PowerButton);
    assert!(e.open_info && !e.raise);
    assert_eq!(s.mode, BarMode::Launcher);
}
