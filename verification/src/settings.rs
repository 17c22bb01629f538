//! The bar's settings: which dconf key holds each, its default, what the bar
//! does when one changes, the font setting's family and size, and the browser
//! command prefix.
use vstd::prelude::*;
use crate::strings::{chars_of, string_of, string_push_str};

verus! {

/// Position of the last `c` in `s`, or -1.
pub open spec fn last_index(s: Seq<char>, c: char) -> int
    decreases s.len(),
{
    if s.len() == 0 {
        -1
    } else if s.last() == c {
        s.len() - 1
    } else {
        last_index(s.drop_last(), c)
    }
}

proof fn lemma_last_index(s: Seq<char>, c: char)
    ensures
        -1 <= last_index(s, c) < s.len(),
        last_index(s, c) >= 0 ==> s[last_index(s, c)] == c,
        forall|j: int| last_index(s, c) < j < s.len() ==> s[j] != c,
    decreases s.len(),
{
    if s.len() > 0 && s.last() != c {
        lemma_last_index(s.drop_last(), c);
        assert forall|j: int| last_index(s, c) < j < s.len() implies s[j] != c by {
            if j < s.len() - 1 {
                assert(s[j] == s.drop_last()[j]);
            }
        }
    }
}

/// A font setting such as `FiraCode Nerd Font 14` split at its last space
/// into family and size; nothing when it has no space.
pub open spec fn split_font_spec(font: Seq<char>) -> Option<(Seq<char>, Seq<char>)> {
    let p = last_index(font, ' ');
    if p < 0 {
        None
    } else {
        Some((font.subrange(0, p), font.subrange(p + 1, font.len() as int)))
    }
}

/// Splits a font setting into family and size text.
pub fn split_font(font: &str) -> (r: Option<(String, String)>)
    ensures
        match r {
            Some((family, size)) => split_font_spec(font@) == Some((family@, size@)),
            None => split_font_spec(font@) is None,
        },
{
    let v = chars_of(font);
    proof {
        lemma_last_index(v@, ' ');
    }
    let mut i: usize = v.len();
    while i > 0 && v[i - 1] != ' '
        invariant
            i <= v@.len(),
            forall|j: int| i <= j < v@.len() ==> v@[j] != ' ',
            -1 <= last_index(v@, ' ') < v@.len(),
            last_index(v@, ' ') >= 0 ==> v@[last_index(v@, ' ')] == ' ',
            forall|j: int| last_index(v@, ' ') < j < v@.len() ==> v@[j] != ' ',
        decreases i,
    {
        i = i - 1;
    }
    if i == 0 {
        return None;
    }
    let p = i - 1;
    let mut family: Vec<char> = Vec::new();
    let mut k: usize = 0;
    while k < p
        invariant
            k <= p < v@.len(),
            family@ == v@.subrange(0, k as int),
        decreases p - k,
    {
        family.push(v[k]);
        k = k + 1;
    }
    let mut size: Vec<char> = Vec::new();
    let mut k: usize = p + 1;
    while k < v.len()
        invariant
            p < v@.len(),
            p + 1 <= k <= v@.len(),
            size@ == v@.subrange(p + 1, k as int),
        decreases v.len() - k,
    {
        size.push(v[k]);
        k = k + 1;
    }
    Some((string_of(&family), string_of(&size)))
}

/// The browser setting as a command prefix: the browser followed by a space.
pub fn browser_prefix(browser: &str) -> (r: String)
    ensures
        r@ == browser@.push(' '),
{
    let mut r = browser.to_owned();
    string_push_str(&mut r, " ");
    proof {
        reveal_strlit(" ");
    }
    r
}

/// A setting of the Wayland bar, as the key that changed names it.
#[derive(Clone, Copy, Debug, PartialEq, Eq, Structural)]
pub enum SettingKind {
    Font,
    TimeBlock,
    Divider,
    DividerHard,
    DateFmt,
    BrowserPath,
    Browser,
    TimeFmt,
    UpdateTimeNtp,
    BrightnessBlock,
    BatteryBlock,
    ConnmanBlock,
    MediaBlock,
    ColorActive,
    ColorInactive,
    PaddingX,
    PaddingY,
    TopBar,
    TimeServers,
    BarShowTime,
}

/// The dconf key that holds a setting.
pub open spec fn setting_key_spec(kind: SettingKind) -> Seq<char> {
    match kind {
        SettingKind::Font => "/dotfiles/somebar/font"@,
        SettingKind::TimeBlock => "/dotfiles/somebar/time-block"@,
        SettingKind::Divider => "/dotfiles/somebar/divider"@,
        SettingKind::DividerHard => "/dotfiles/somebar/divider-hard"@,
        SettingKind::DateFmt => "/dotfiles/somebar/date-fmt"@,
        SettingKind::BrowserPath => "/dotfiles/somebar/browser-path"@,
        SettingKind::Browser => "/dotfiles/somebar/browser"@,
        SettingKind::TimeFmt => "/dotfiles/somebar/time-fmt"@,
        SettingKind::UpdateTimeNtp => "/dotfiles/somebar/update-time-ntp"@,
        SettingKind::BrightnessBlock => "/dotfiles/somebar/brightness-block"@,
        SettingKind::BatteryBlock => "/dotfiles/somebar/battery-block"@,
        SettingKind::ConnmanBlock => "/dotfiles/somebar/connman-block"@,
        SettingKind::MediaBlock => "/dotfiles/somebar/media-block"@,
        SettingKind::ColorActive => "/dotfiles/somebar/color-active"@,
        SettingKind::ColorInactive => "/dotfiles/somebar/color-inactive"@,
        SettingKind::PaddingX => "/dotfiles/somebar/padding-x"@,
        SettingKind::PaddingY => "/dotfiles/somebar/padding-y"@,
        SettingKind::TopBar => "/dotfiles/somebar/top-bar"@,
        SettingKind::TimeServers => "/dotfiles/somebar/time-servers"@,
        SettingKind::BarShowTime => "/dotfiles/somebar/bar-show-time"@,
    }
}

/// The dconf key that holds a setting.
pub fn setting_key(kind: SettingKind) -> (r: &'static str)
    ensures
        r@ == setting_key_spec(kind),
{
    match kind {
        SettingKind::Font => "/dotfiles/somebar/font",
        SettingKind::TimeBlock => "/dotfiles/somebar/time-block",
        SettingKind::Divider => "/dotfiles/somebar/divider",
        SettingKind::DividerHard => "/dotfiles/somebar/divider-hard",
        SettingKind::DateFmt => "/dotfiles/somebar/date-fmt",
        SettingKind::BrowserPath => "/dotfiles/somebar/browser-path",
        SettingKind::Browser => "/dotfiles/somebar/browser",
        SettingKind::TimeFmt => "/dotfiles/somebar/time-fmt",
        SettingKind::UpdateTimeNtp => "/dotfiles/somebar/update-time-ntp",
        SettingKind::BrightnessBlock => "/dotfiles/somebar/brightness-block",
        SettingKind::BatteryBlock => "/dotfiles/somebar/battery-block",
        SettingKind::ConnmanBlock => "/dotfiles/somebar/connman-block",
        SettingKind::MediaBlock => "/dotfiles/somebar/media-block",
        SettingKind::ColorActive => "/dotfiles/somebar/color-active",
        SettingKind::ColorInactive => "/dotfiles/somebar/color-inactive",
        SettingKind::PaddingX => "/dotfiles/somebar/padding-x",
        SettingKind::PaddingY => "/dotfiles/somebar/padding-y",
        SettingKind::TopBar => "/dotfiles/somebar/top-bar",
        SettingKind::TimeServers => "/dotfiles/somebar/time-servers",
        SettingKind::BarShowTime => "/dotfiles/somebar/bar-show-time",
    }
}

/// The value a text setting has when its key is unset.
pub open spec fn default_text_spec(kind: SettingKind) -> Option<Seq<char>> {
    match kind {
        SettingKind::Font => Some("FiraCode Nerd Font 14"@),
        SettingKind::Divider => Some(""@),
        SettingKind::DividerHard => Some(""@),
        SettingKind::DateFmt => Some("%m/%d/%y %A"@),
        SettingKind::TimeFmt => Some("%I:%M"@),
        SettingKind::BrowserPath => Some(".firedragon"@),
        SettingKind::Browser => Some("firedragon"@),
        _ => None,
    }
}

/// The value a text setting has when its key is unset; `None` for settings
/// that are not text.
pub fn default_text(kind: SettingKind) -> (r: Option<&'static str>)
    ensures
        match r {
            Some(t) => default_text_spec(kind) == Some(t@),
            None => default_text_spec(kind) is None,
        },
{
    match kind {
        SettingKind::Font => Some("FiraCode Nerd Font 14"),
        SettingKind::Divider => Some(""),
        SettingKind::DividerHard => Some(""),
        SettingKind::DateFmt => Some("%m/%d/%y %A"),
        SettingKind::TimeFmt => Some("%I:%M"),
        SettingKind::BrowserPath => Some(".firedragon"),
        SettingKind::Browser => Some("firedragon"),
        _ => None,
    }
}

/// The value a switch has when its key is unset: every block is shown, the
/// clock is set from the network, and the bar sits at the top. `None` for
/// settings that are not switches.
pub fn default_flag(kind: SettingKind) -> (r: Option<bool>)
    ensures
        r == match kind {
            SettingKind::TimeBlock | SettingKind::BrightnessBlock | SettingKind::BatteryBlock
            | SettingKind::ConnmanBlock | SettingKind::MediaBlock | SettingKind::UpdateTimeNtp
            | SettingKind::TopBar => Some(true),
            _ => None::<bool>,
        },
{
    match kind {
        SettingKind::TimeBlock | SettingKind::BrightnessBlock | SettingKind::BatteryBlock
        | SettingKind::ConnmanBlock | SettingKind::MediaBlock | SettingKind::UpdateTimeNtp
        | SettingKind::TopBar => Some(true),
        _ => None,
    }
}

/// How long the level bar stays up when its key is unset, in milliseconds.
pub fn default_bar_show_time() -> (r: u64)
    ensures
        r == 500,
{
    500
}

/// What the bar does after a setting changed.
#[derive(Clone, Copy, Debug, PartialEq, Eq, Structural)]
pub enum SettingReaction {
    /// Load the new font, measure the divider again and lay the bar out again.
    ReloadFont,
    /// Lay the bar out again with the new colors or paddings.
    Relayout,
    /// Show or hide the block as the setting now says, then redraw.
    ToggleBlock,
    /// Take the new text or switch and redraw.
    Redraw,
    /// Take the new value; nothing on screen changes.
    Store,
    /// Anchor the bar to the top or the bottom edge again.
    Reanchor,
    /// Take the new time servers, set the clock from them, and redraw.
    ResyncClock,
    /// Nothing to do.
    Nothing,
}

/// What the bar does after the setting `kind` changed (`None`: a key that
/// names no setting); `clock_shown` says whether the clock block is on.
/// Settings of the clock block are ignored while it is off.
pub open spec fn setting_reaction_spec(kind: Option<SettingKind>, clock_shown: bool) -> SettingReaction {
    match kind {
        None => SettingReaction::Nothing,
        Some(k) => match k {
            SettingKind::Font => SettingReaction::ReloadFont,
            SettingKind::TimeBlock | SettingKind::BrightnessBlock | SettingKind::BatteryBlock
            | SettingKind::ConnmanBlock | SettingKind::MediaBlock => SettingReaction::ToggleBlock,
            SettingKind::Divider | SettingKind::DividerHard => SettingReaction::Redraw,
            SettingKind::DateFmt | SettingKind::TimeFmt | SettingKind::UpdateTimeNtp => if clock_shown {
                SettingReaction::Redraw
            } else {
                SettingReaction::Nothing
            },
            SettingKind::BrowserPath | SettingKind::Browser | SettingKind::BarShowTime => SettingReaction::Store,
            SettingKind::ColorActive | SettingKind::ColorInactive | SettingKind::PaddingX
            | SettingKind::PaddingY => SettingReaction::Relayout,
            SettingKind::TopBar => SettingReaction::Reanchor,
            SettingKind::TimeServers => if clock_shown {
                SettingReaction::ResyncClock
            } else {
                SettingReaction::Nothing
            },
        },
    }
}

/// What the bar does after a setting changed (see `setting_reaction_spec`).
pub fn setting_reaction(kind: Option<SettingKind>, clock_shown: bool) -> (r: SettingReaction)
    ensures
        r == setting_reaction_spec(kind, clock_shown),
{
    match kind {
        None => SettingReaction::Nothing,
        Some(k) => match k {
            SettingKind::Font => SettingReaction::ReloadFont,
            SettingKind::TimeBlock | SettingKind::BrightnessBlock | SettingKind::BatteryBlock
            | SettingKind::ConnmanBlock | SettingKind::MediaBlock => SettingReaction::ToggleBlock,
            SettingKind::Divider | SettingKind::DividerHard => SettingReaction::Redraw,
            SettingKind::DateFmt | SettingKind::TimeFmt | SettingKind::UpdateTimeNtp => if clock_shown {
                SettingReaction::Redraw
            } else {
                SettingReaction::Nothing
            },
            SettingKind::BrowserPath | SettingKind::Browser | SettingKind::BarShowTime => SettingReaction::Store,
            SettingKind::ColorActive | SettingKind::ColorInactive | SettingKind::PaddingX
            | SettingKind::PaddingY => SettingReaction::Relayout,
            SettingKind::TopBar => SettingReaction::Reanchor,
            SettingKind::TimeServers => if clock_shown {
                SettingReaction::ResyncClock
            } else {
                SettingReaction::Nothing
            },
        },
    }
}

} // verus!
