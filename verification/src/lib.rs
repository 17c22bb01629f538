//! Verified core logic of a Wayland desktop setup: the status bars (the
//! Wayland bar's status area and the i3bar/dwl status line) and their blocks,
//! the dwl tag bar, the D-Bus match-rule registry, the clipboard seat, the
//! launcher, the bar's settings, the ListenBrainz scrobbler's pure parts, the
//! polkit helper protocol, the greeter's power commands and the session
//! supervisors.
pub mod strings;
pub mod push_str;
pub mod filters;
pub mod tags;
pub mod desktop;
pub mod upower;
pub mod battery;
pub mod time;
pub mod connman;
pub mod playback;
pub mod listenbrainz;
pub mod polkit;
pub mod power;
pub mod clipboard;
pub mod dwl;
pub mod supervisor;
pub mod settings;
pub mod statusline;
pub mod bar;
