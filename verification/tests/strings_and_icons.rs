use dotfiles::strings::{chars_of, decimal, is_whitespace, str_eq, string_of, trim_chars};
use dotfiles::time::{brightness_icon, clock_icon, fmt_brightness, ntp_servers, seconds_to_next_minute, TimeBlock};

#[test]
fn whitespace_matches_std_for_every_char() {
    for code in 0u32..=0x10FFFF {
        if let Some(c) = char::from_u32(code) {
            assert_eq!(is_whitespace(c), c.is_whitespace(), "{:x}", code);
        }
    }
}

#[test]
fn trim_matches_std() {
    for s in ["", "  ", " a ", "\t\nab c\u{3000}", "x", "\u{85}y\u{2028}"] {
        let t = trim_chars(&chars_of(s));
        assert_eq!(string_of(&t), s.trim());
    }
}

#[test]
fn decimal_matches_to_string() {
    for n in [0u64, 7, 10, 99, 100, 12345, u64::MAX] {
        assert_eq!(decimal(n), n.to_string());
    }
}

#[test]
fn str_eq_compares_text() {
    assert!(str_eq("abc", "abc"));
    assert!(!str_eq("abc", "abd"));
    assert!(!str_eq("ab", "abc"));
}

#[test]
fn clock_icon_repeats_every_twelve_hours() {
    for h in 0..12 {
        assert_eq!(clock_icon(h), clock_icon(h + 12));
    }
    assert_ne!(clock_icon(0), clock_icon(1));
    assert_eq!(clock_icon(0), "\u{f144a} ");
}

#[test]
fn brightness_icon_steps() {
    assert_eq!(brightness_icon(0), "\u{f00da} ");
    assert_eq!(brightness_icon(15), "\u{f00da} ");
    assert_eq!(brightness_icon(16), "\u{f00db} ");
    assert_eq!(brightness_icon(95), "\u{f00df} ");
    assert_eq!(brightness_icon(96), "\u{f00e0} ");
    assert_eq!(brightness_icon(1000), "\u{f00e0} ");
}

#[test]
fn brightness_text() {
    let mut f = String::new();
    fmt_brightness(42, &mut f);
    assert_eq!(f, " \u{f00dc} 42% ");
}

#[test]
fn next_minute_delay() {
    assert_eq!(seconds_to_next_minute(0), 60);
    assert_eq!(seconds_to_next_minute(59), 1);
}

#[test]
fn default_servers() {
    let s = ntp_servers();
    assert_eq!(s.len(), 18);
    assert_eq!(s[0], "time-a-g.nist.gov");
    assert_eq!(s[17], "utcnist3.colorado.edu");
}

#[test]
fn update_time_builds_command_from_shuffled_servers() {
    let servers = vec!["a.example".to_owned(), "b.example".to_owned(), "c.example".to_owned()];
    let mut t = TimeBlock::new(true, servers.clone(), "%I:%M".to_owned(), "%m/%d/%y %A".to_owned());
    assert!(!t.is_time_updated);
    let cmd = t.update_time();
    assert!(t.is_time_updated);
    let mut sorted = t.time_servers.clone();
    sorted.sort();
    assert_eq!(sorted, servers);
    assert_eq!(cmd, format!("doas ntpdate {}; doas hwclock -w", t.time_servers.join(" ")));
}

#[test]
fn update_time_without_servers() {
    let mut t = TimeBlock::new(true, Vec::new(), String::new(), String::new());
    assert_eq!(t.update_time(), "doas ntpdate; doas hwclock -w");
}
