//! The one-line status bar for i3bar and dwl: its state, how each D-Bus signal
//! changes it, and the line of text it shows.
use vstd::prelude::*;
use crate::battery::{
    apply_changes, battery_icon, battery_icon_spec, device_at, device_from_properties, distinct_paths,
    has_path, path_index, time_icon_spec, type_icon, type_icon_spec, BatteryBlock, BatteryDevice,
    PropertyChanges,
};
use crate::connman::{
    connected_service_spec, connman_icon_spec, connman_state_of, find_connected_service, is_connected,
    ConnmanState,
};
use crate::playback::{entries_view, playback_icon_spec, playback_status_of, PlaybackStatus};
use crate::strings::{decimal, decimal_spec, lowercase, str_eq, string_push, string_push_str, trim_spec};
use crate::time::{
    brightness_icon, brightness_icon_spec, clock_icon, clock_icon_spec, ntp_command, ntp_server_list,
    ntp_servers, shuffle,
};
use crate::upower::{BatteryState, BatteryType};

verus! {

/// The wall-clock fields that the status line shows, in local time.
#[derive(Clone, Copy, Debug, PartialEq, Eq, Structural)]
pub struct ClockFields {
    /// 0 to 23.
    pub hour: u32,
    /// 0 to 59.
    pub minute: u32,
    /// 1 to 12.
    pub month: u32,
    /// 1 to 31.
    pub day: u32,
    /// The full year, -9999 to 9999.
    pub year: i32,
}

/// Whether the fields describe a time of day and a date in the supported range.
pub open spec fn clock_ok(c: ClockFields) -> bool {
    &&& c.hour < 24
    &&& c.minute < 60
    &&& 1 <= c.month <= 12
    &&& 1 <= c.day <= 31
    &&& -9999 <= c.year <= 9999
}

/// `n` in decimal, with zeros in front up to `width` digits.
pub open spec fn zero_padded(n: nat, width: nat) -> Seq<char> {
    let d = decimal_spec(n);
    Seq::new(if d.len() < width { (width - d.len()) as nat } else { 0 }, |_i: int| '0') + d
}

/// The hour on a 12-hour dial: midnight and noon are 12.
pub open spec fn hour12(h: nat) -> nat {
    if h == 0 || h == 12 {
        12
    } else if h < 12 {
        h
    } else {
        (h - 12) as nat
    }
}

/// A full year: four digits at least, with a minus sign before negative years.
pub open spec fn year_text(y: int) -> Seq<char> {
    if y < 0 {
        seq!['-'] + zero_padded((-y) as nat, 4)
    } else {
        zero_padded(y as nat, 4)
    }
}

/// `hh:mm` on a 12-hour clock, after the dial icon for the hour.
pub open spec fn time_text(c: ClockFields) -> Seq<char> {
    clock_icon_spec(c.hour) + zero_padded(hour12(c.hour as nat), 2) + seq![':'] + zero_padded(
        c.minute as nat,
        2,
    )
}

/// `MM/DD/YYYY`.
pub open spec fn date_text(c: ClockFields) -> Seq<char> {
    zero_padded(c.month as nat, 2) + seq!['/'] + zero_padded(c.day as nat, 2) + seq!['/'] + year_text(
        c.year as int,
    )
}

/// The clock part of the line: the time, a separator, the calendar icon, the
/// date and another separator.
pub open spec fn clock_text(c: ClockFields) -> Seq<char> {
    time_text(c) + " \u{e0b1} \u{f00f6} "@ + date_text(c) + " \u{e0b1} "@
}

/// Appends `n` with zeros in front up to `width` digits.
fn push_zero_padded(f: &mut String, n: u64, width: usize)
    ensures
        final(f)@ == old(f)@ + zero_padded(n as nat, width as nat),
{
    let d = decimal(n);
    let len = d.as_str().unicode_len();
    let pad: usize = if len < width { width - len } else { 0 };
    let ghost start = f@;
    let mut i: usize = 0;
    while i < pad
        invariant
            i <= pad,
            f@ == start + Seq::new(i as nat, |_j: int| '0'),
        decreases pad - i,
    {
        string_push(f, '0');
        assert(f@ =~= start + Seq::new((i + 1) as nat, |_j: int| '0'));
        i = i + 1;
    }
    string_push_str(f, d.as_str());
    assert(f@ =~= start + zero_padded(n as nat, width as nat));
}

/// Appends a full year.
fn push_year(f: &mut String, year: i32)
    requires
        -9999 <= year <= 9999,
    ensures
        final(f)@ == old(f)@ + year_text(year as int),
{
    let ghost start = f@;
    if year < 0 {
        string_push(f, '-');
        let y: u32 = (0 - year) as u32;
        push_zero_padded(f, y as u64, 4);
    } else {
        let y: u32 = year as u32;
        push_zero_padded(f, y as u64, 4);
    }
    assert(f@ =~= start + year_text(year as int));
}

/// Appends the time of day.
fn push_time(f: &mut String, c: &ClockFields)
    requires
        clock_ok(*c),
    ensures
        final(f)@ == old(f)@ + time_text(*c),
{
    let ghost start = f@;
    string_push_str(f, clock_icon(c.hour));
    let h: u32 = if c.hour == 0 || c.hour == 12 {
        12
    } else if c.hour < 12 {
        c.hour
    } else {
        c.hour - 12
    };
    assert(h == hour12(c.hour as nat));
    push_zero_padded(f, h as u64, 2);
    string_push(f, ':');
    push_zero_padded(f, c.minute as u64, 2);
    assert(f@ =~= start + time_text(*c));
}

/// Appends the date.
fn push_date(f: &mut String, c: &ClockFields)
    requires
        clock_ok(*c),
    ensures
        final(f)@ == old(f)@ + date_text(*c),
{
    let ghost start = f@;
    push_zero_padded(f, c.month as u64, 2);
    string_push(f, '/');
    push_zero_padded(f, c.day as u64, 2);
    string_push(f, '/');
    push_year(f, c.year);
    assert(f@ =~= start + date_text(*c));
}

/// Appends the clock part of the line.
pub fn push_clock(f: &mut String, c: &ClockFields)
    requires
        clock_ok(*c),
    ensures
        final(f)@ == old(f)@ + clock_text(*c),
{
    let ghost start = f@;
    push_time(f, c);
    string_push_str(f, " \u{e0b1} \u{f00f6} ");
    push_date(f, c);
    string_push_str(f, " \u{e0b1} ");
    proof {
        reveal_strlit(" \u{e0b1} \u{f00f6} ");
        reveal_strlit(" \u{e0b1} ");
    }
    assert(f@ =~= start + clock_text(*c));
}

/// The song (title, artist) after one MPRIS metadata entry `(key, value)`;
/// for the artist list the value is its first element.
pub open spec fn song_after_entry(song: (Seq<char>, Seq<char>), entry: (Seq<char>, Seq<char>)) -> (
    Seq<char>,
    Seq<char>,
) {
    if entry.0 == "xesam:title"@ {
        (entry.1, song.1)
    } else if entry.0 == "xesam:artist"@ {
        (song.0, entry.1)
    } else {
        song
    }
}

/// The song after metadata entries, applied in order.
pub open spec fn song_after_entries(song: (Seq<char>, Seq<char>), entries: Seq<(Seq<char>, Seq<char>)>) -> (
    Seq<char>,
    Seq<char>,
)
    decreases entries.len(),
{
    if entries.len() == 0 {
        song
    } else {
        song_after_entry(song_after_entries(song, entries.drop_last()), entries.last())
    }
}

/// Two sequences that hold the same items as often still do so after the
/// same function is applied to every item.
proof fn lemma_map_values_multiset<A, B>(s: Seq<A>, t: Seq<A>, f: spec_fn(A) -> B)
    requires
        s.to_multiset() == t.to_multiset(),
    ensures
        s.map_values(f).to_multiset() == t.map_values(f).to_multiset(),
    decreases s.len(),
{
    broadcast use vstd::seq_lib::group_to_multiset_ensures;

    assert(t.to_multiset().len() == s.to_multiset().len());
    if s.len() == 0 {
        assert(s.map_values(f) =~= Seq::<B>::empty());
        assert(s.to_multiset().len() == 0);
        assert(t.len() == 0);
        assert(t.map_values(f) =~= Seq::<B>::empty());
    } else {
        let x = s.last();
        assert(s.contains(x)) by {
            assert(s[s.len() - 1] == x);
        }
        assert(s.to_multiset().count(x) > 0);
        assert(t.to_multiset().count(x) > 0);
        assert(t.contains(x));
        let j = choose|j: int| 0 <= j < t.len() && t[j] == x;
        let s2 = s.drop_last();
        let t2 = t.remove(j);
        assert(s2.push(x) =~= s);
        assert(s2.to_multiset() =~= t2.to_multiset());
        lemma_map_values_multiset(s2, t2, f);
        assert(s.map_values(f) =~= s2.map_values(f).push(f(x)));
        assert(t2.map_values(f) =~= t.map_values(f).remove(j));
        assert(t.map_values(f)[j] == f(x));
        assert(t.map_values(f).to_multiset() =~= t2.map_values(f).to_multiset().insert(f(x)));
    }
}

/// What the bar shows: the player, the network, the brightness and the power
/// sources. The clock is kept by the caller and handed to `status_line`.
pub struct SharedData {
    pub playing: PlaybackStatus,
    /// (title, artist)
    pub song_metadata: (String, String),
    /// Whether the clock has been set from the network since the last time
    /// the network went down.
    pub is_time_updated: bool,
    pub connected_service: String,
    pub online: ConnmanState,
    /// Screen brightness in percent.
    pub brightness: usize,
    pub bat_devices: BatteryBlock,
}

/// The song shown, as text.
pub open spec fn song_view(d: &SharedData) -> (Seq<char>, Seq<char>) {
    (d.song_metadata.0@, d.song_metadata.1@)
}

/// Everything but the song, the player state and the power sources is unchanged.
pub open spec fn same_network_and_brightness(a: &SharedData, b: &SharedData) -> bool {
    &&& a.is_time_updated == b.is_time_updated
    &&& a.connected_service@ == b.connected_service@
    &&& a.online == b.online
    &&& a.brightness == b.brightness
}

/// One power source on the line: its kind's icon, the battery icon, the
/// charge, then (unless the state is unknown) the written-out remaining time
/// `duration` and the estimate's icon, and a separator.
pub open spec fn line_device_text(d: BatteryDevice, duration: Seq<char>) -> Seq<char> {
    type_icon_spec(d.bat_type) + battery_icon_spec(d.state, d.percentage) + decimal_spec(
        d.percentage as nat,
    ) + "% "@ + (if d.state != BatteryState::Unknown {
        duration + time_icon_spec(d.time) + seq![' ']
    } else {
        Seq::empty()
    }) + "\u{e0b1} "@
}

/// Several power sources, one after the other.
pub open spec fn line_devices_text(
    entries: Seq<(Seq<char>, BatteryDevice)>,
    durations: Seq<Seq<char>>,
) -> Seq<char>
    decreases entries.len(),
{
    if entries.len() == 0 || durations.len() == 0 {
        Seq::empty()
    } else {
        line_devices_text(entries.drop_last(), durations.drop_last()) + line_device_text(
            entries.last().1,
            durations.last(),
        )
    }
}

/// The end of the line: the network icon, the connected service's name when
/// connected, the player icon, and `title - artist` unless stopped.
pub open spec fn line_tail_text(
    online: ConnmanState,
    service: Seq<char>,
    playing: PlaybackStatus,
    song: (Seq<char>, Seq<char>),
) -> Seq<char> {
    connman_icon_spec(online) + (if is_connected(online) {
        service
    } else {
        Seq::empty()
    }) + "  "@ + playback_icon_spec(playing) + (if playing != PlaybackStatus::Stopped {
        song.0 + " - "@ + song.1
    } else {
        Seq::empty()
    })
}

/// The whole line: the clock, the brightness, the power sources and the tail.
pub open spec fn status_line_spec(d: &SharedData, clock: ClockFields, durations: Seq<Seq<char>>) -> Seq<
    char,
> {
    clock_text(clock) + brightness_icon_spec(d.brightness) + decimal_spec(d.brightness as nat) + "%  "@
        + line_devices_text(d.bat_devices@, durations) + line_tail_text(
        d.online,
        d.connected_service@,
        d.playing,
        song_view(d),
    )
}

impl SharedData {
    /// Nothing playing, offline, no power sources, brightness 0, and the clock
    /// not yet set.
    pub fn new() -> (d: Self)
        ensures
            d.playing == PlaybackStatus::Stopped,
            song_view(&d) == (Seq::<char>::empty(), Seq::<char>::empty()),
            !d.is_time_updated,
            d.connected_service@ == Seq::<char>::empty(),
            d.online == ConnmanState::Offline,
            d.brightness == 0,
            d.bat_devices@ == Seq::<(Seq<char>, BatteryDevice)>::empty(),
    {
        SharedData {
            playing: PlaybackStatus::Stopped,
            song_metadata: (String::new(), String::new()),
            is_time_updated: false,
            connected_service: String::new(),
            online: ConnmanState::Offline,
            brightness: 0,
            bat_devices: BatteryBlock::new(),
        }
    }

    fn apply_song_entries(&mut self, entries: &Vec<(String, String)>)
        ensures
            song_view(final(self)) == song_after_entries(song_view(old(self)), entries_view(entries@)),
            final(self).playing == old(self).playing,
            same_network_and_brightness(old(self), final(self)),
            final(self).bat_devices@ == old(self).bat_devices@,
    {
        let ghost start = song_view(self);
        let ghost ev = entries_view(entries@);
        let mut i: usize = 0;
        while i < entries.len()
            invariant
                i <= entries.len(),
                ev == entries_view(entries@),
                song_view(self) == song_after_entries(start, ev.take(i as int)),
                self.playing == old(self).playing,
                same_network_and_brightness(old(self), self),
                self.bat_devices@ == old(self).bat_devices@,
            decreases entries.len() - i,
        {
            let key = entries[i].0.as_str();
            let value = entries[i].1.as_str();
            assert(ev[i as int] == (key@, value@));
            if str_eq(key, "xesam:title") {
                self.song_metadata.0 = value.to_owned();
            } else if str_eq(key, "xesam:artist") {
                self.song_metadata.1 = value.to_owned();
            }
            assert(ev.take(i + 1).drop_last() =~= ev.take(i as int));
            i = i + 1;
        }
        assert(ev.take(ev.len() as int) =~= ev);
    }

    /// Takes the player's state when the bar starts: its `PlaybackStatus` (an
    /// empty one if it had none) and, if it gave them, its metadata entries.
    pub fn start_player(&mut self, status: &str, metadata: Option<&Vec<(String, String)>>)
        ensures
            final(self).playing == playback_status_of(trim_spec(lowercase(status@))),
            metadata is None ==> song_view(final(self)) == song_view(old(self)),
            metadata matches Some(e) ==> song_view(final(self)) == song_after_entries(
                song_view(old(self)),
                entries_view(e@),
            ),
            same_network_and_brightness(old(self), final(self)),
            final(self).bat_devices@ == old(self).bat_devices@,
    {
        self.playing = match PlaybackStatus::from_str(status) {
            Ok(p) => p,
            Err(_) => PlaybackStatus::Stopped,
        };
        if let Some(entries) = metadata {
            self.apply_song_entries(entries);
        }
    }

    /// Handles the player's `PropertiesChanged`: the changed metadata entries
    /// and the changed `PlaybackStatus`, each if present. Stopping forgets the
    /// song.
    pub fn player_changed(&mut self, metadata: Option<&Vec<(String, String)>>, playback_status: Option<&str>)
        ensures
            ({
                let after_meta = match metadata {
                    Some(e) => song_after_entries(song_view(old(self)), entries_view(e@)),
                    None => song_view(old(self)),
                };
                match playback_status {
                    Some(s) => {
                        &&& final(self).playing == playback_status_of(trim_spec(lowercase(s@)))
                        &&& final(self).playing == PlaybackStatus::Stopped ==> song_view(final(self)) == (
                            Seq::<char>::empty(),
                            Seq::<char>::empty(),
                        )
                        &&& final(self).playing != PlaybackStatus::Stopped ==> song_view(final(self))
                            == after_meta
                    },
                    None => {
                        &&& final(self).playing == old(self).playing
                        &&& song_view(final(self)) == after_meta
                    },
                }
            }),
            same_network_and_brightness(old(self), final(self)),
            final(self).bat_devices@ == old(self).bat_devices@,
    {
        if let Some(entries) = metadata {
            self.apply_song_entries(entries);
        }
        if let Some(status) = playback_status {
            self.playing = match PlaybackStatus::from_str(status) {
                Ok(p) => p,
                Err(_) => PlaybackStatus::Stopped,
            };
            if self.playing == PlaybackStatus::Stopped {
                self.song_metadata = (String::new(), String::new());
            }
        }
    }

    /// Marks the clock as set and returns the shell command that sets it from
    /// the default time servers, asked in a random order.
    pub fn update_time(&mut self) -> (command: String)
        ensures
            final(self).is_time_updated,
            exists|servers: Seq<Seq<char>>|
                servers.to_multiset() == ntp_server_list().to_multiset() && command@ == ntp_command(servers),
            final(self).playing == old(self).playing,
            song_view(final(self)) == song_view(old(self)),
            final(self).connected_service@ == old(self).connected_service@,
            final(self).online == old(self).online,
            final(self).brightness == old(self).brightness,
            final(self).bat_devices@ == old(self).bat_devices@,
    {
        self.is_time_updated = true;
        let mut servers = ntp_servers();
        let ghost listed = servers@;
        shuffle(&mut servers);
        let ghost shuffled = servers@.map_values(|s: String| s@);
        let mut args = String::new();
        string_push_str(&mut args, "doas ntpdate ");
        let mut i: usize = 0;
        while i < servers.len()
            invariant
                i <= servers.len(),
                shuffled == servers@.map_values(|s: String| s@),
                args@ == "doas ntpdate "@ + crate::time::spaced(shuffled.take(i as int)),
            decreases servers.len() - i,
        {
            string_push_str(&mut args, servers[i].as_str());
            string_push_str(&mut args, " ");
            proof {
                reveal_strlit(" ");
                assert(shuffled.take(i + 1).drop_last() =~= shuffled.take(i as int));
            }
            i = i + 1;
        }
        assert(shuffled.take(shuffled.len() as int) =~= shuffled);
        crate::strings::string_pop(&mut args);
        proof {
            reveal_strlit("doas ntpdate ");
        }
        string_push_str(&mut args, "; doas hwclock -w");
        proof {
            lemma_map_values_multiset(servers@, listed, |s: String| s@);
            assert(listed.map_values(|s: String| s@) == ntp_server_list());
            assert(shuffled.to_multiset() == ntp_server_list().to_multiset());
            assert(args@ == ntp_command(shuffled));
        }
        args
    }

    /// Takes the network's state when the bar starts: ConnMan's `State`
    /// property and its services as `(state, name)` pairs. When connected the
    /// clock is set, and the command for that is returned.
    pub fn start_network(&mut self, state: &str, services: &Vec<(String, String)>) -> (command: Option<String>)
        ensures
            final(self).online == connman_state_of(state@),
            final(self).connected_service@ == connected_service_spec(
                services@.map_values(|p: (String, String)| (p.0@, p.1@)),
            ),
            command is Some <==> is_connected(connman_state_of(state@)),
            final(self).is_time_updated == (old(self).is_time_updated || is_connected(connman_state_of(state@))),
            command matches Some(c) ==> exists|servers: Seq<Seq<char>>|
                servers.to_multiset() == ntp_server_list().to_multiset() && c@ == ntp_command(servers),
            final(self).playing == old(self).playing,
            song_view(final(self)) == song_view(old(self)),
            final(self).brightness == old(self).brightness,
            final(self).bat_devices@ == old(self).bat_devices@,
    {
        self.online = match ConnmanState::from_str(state) {
            Ok(s) => s,
            Err(_) => ConnmanState::Offline,
        };
        let command = if self.online.is_connected() {
            Some(self.update_time())
        } else {
            None
        };
        self.connected_service = find_connected_service(services);
        command
    }

    /// Handles ConnMan's `PropertyChanged` for the property `name`. Only
    /// `State` counts: the state is taken, and when it is connected the
    /// services must be fetched and handed to `services_received` (the result
    /// is `true`); when it is not, the clock counts as not set since.
    /// Returns whether the services must be fetched, and whether the line
    /// changed.
    pub fn connman_property_changed(&mut self, name: &str, value: &str) -> (r: (bool, bool))
        ensures
            name@ != "State"@ ==> r == (false, false) && final(self).online == old(self).online
                && final(self).is_time_updated == old(self).is_time_updated,
            name@ == "State"@ ==> {
                &&& final(self).online == connman_state_of(value@)
                &&& r.0 == is_connected(connman_state_of(value@))
                &&& r.1 == !is_connected(connman_state_of(value@))
                &&& final(self).is_time_updated == (is_connected(connman_state_of(value@))
                    && old(self).is_time_updated)
            },
            final(self).connected_service@ == old(self).connected_service@,
            final(self).playing == old(self).playing,
            song_view(final(self)) == song_view(old(self)),
            final(self).brightness == old(self).brightness,
            final(self).bat_devices@ == old(self).bat_devices@,
    {
        if !str_eq(name, "State") {
            return (false, false);
        }
        self.online = match ConnmanState::from_str(value) {
            Ok(s) => s,
            Err(_) => ConnmanState::Offline,
        };
        if self.online.is_connected() {
            (true, false)
        } else {
            self.is_time_updated = false;
            (false, true)
        }
    }

    /// Takes the services fetched after the network came up, as `(state,
    /// name)` pairs. If the clock has not been set since, it is set now, and
    /// the command for that is returned.
    pub fn services_received(&mut self, services: &Vec<(String, String)>) -> (command: Option<String>)
        ensures
            final(self).connected_service@ == connected_service_spec(
                services@.map_values(|p: (String, String)| (p.0@, p.1@)),
            ),
            command is Some <==> !old(self).is_time_updated,
            final(self).is_time_updated,
            command matches Some(c) ==> exists|servers: Seq<Seq<char>>|
                servers.to_multiset() == ntp_server_list().to_multiset() && c@ == ntp_command(servers),
            final(self).online == old(self).online,
            final(self).playing == old(self).playing,
            song_view(final(self)) == song_view(old(self)),
            final(self).brightness == old(self).brightness,
            final(self).bat_devices@ == old(self).bat_devices@,
    {
        self.connected_service = find_connected_service(services);
        if !self.is_time_updated {
            Some(self.update_time())
        } else {
            None
        }
    }

    /// Handles UPower's `DeviceAdded` with the new device's properties: the
    /// device is shown under `path` unless it is mains power or of an unknown
    /// kind.
    pub fn device_added(
        &mut self,
        path: &str,
        bat_type: BatteryType,
        percentage: u32,
        state: u32,
        time_to_full: i64,
        time_to_empty: i64,
    )
        ensures
            match device_from_properties(bat_type, percentage, state, time_to_full, time_to_empty) {
                Some(d) => {
                    &&& has_path(old(self).bat_devices@, path@) ==> final(self).bat_devices@
                        == old(self).bat_devices@.update(
                        path_index(old(self).bat_devices@, path@),
                        (path@, d),
                    )
                    &&& !has_path(old(self).bat_devices@, path@) ==> final(self).bat_devices@
                        == old(self).bat_devices@.push((path@, d))
                    &&& device_at(final(self).bat_devices@, path@) == Some(d)
                    &&& distinct_paths(final(self).bat_devices@)
                },
                None => final(self).bat_devices@ == old(self).bat_devices@,
            },
            final(self).playing == old(self).playing,
            song_view(final(self)) == song_view(old(self)),
            same_network_and_brightness(old(self), final(self)),
    {
        if let Some(d) = BatteryDevice::from_properties(bat_type, percentage, state, time_to_full, time_to_empty) {
            self.bat_devices.insert(path, d);
        }
    }

    /// Handles UPower's `DeviceRemoved`: the device under `path` is no longer
    /// shown.
    pub fn device_removed(&mut self, path: &str)
        ensures
            has_path(old(self).bat_devices@, path@) ==> final(self).bat_devices@
                == old(self).bat_devices@.remove(path_index(old(self).bat_devices@, path@)),
            !has_path(old(self).bat_devices@, path@) ==> final(self).bat_devices@
                == old(self).bat_devices@,
            device_at(final(self).bat_devices@, path@) is None,
            distinct_paths(final(self).bat_devices@),
            final(self).playing == old(self).playing,
            song_view(final(self)) == song_view(old(self)),
            same_network_and_brightness(old(self), final(self)),
    {
        self.bat_devices.remove(path);
    }

    /// Handles `PropertiesChanged` sent for the object `path`: if a device is
    /// shown there, the changes are applied to it and `true` is returned (the
    /// line changed); otherwise nothing happens.
    pub fn battery_changed(&mut self, path: &str, changes: &PropertyChanges) -> (shown: bool)
        ensures
            shown == has_path(old(self).bat_devices@, path@),
            shown ==> final(self).bat_devices@ == old(self).bat_devices@.update(
                path_index(old(self).bat_devices@, path@),
                (path@, apply_changes(old(self).bat_devices@[path_index(old(self).bat_devices@, path@)].1, *changes)),
            ),
            !shown ==> final(self).bat_devices@ == old(self).bat_devices@,
            distinct_paths(final(self).bat_devices@),
            final(self).playing == old(self).playing,
            song_view(final(self)) == song_view(old(self)),
            same_network_and_brightness(old(self), final(self)),
    {
        let shown = self.bat_devices.get(path).is_some();
        self.bat_devices.query_battery(path, changes);
        shown
    }

    fn push_devices(&self, durations: &Vec<String>, f: &mut String)
        requires
            durations@.len() == self.bat_devices@.len(),
        ensures
            final(f)@ == old(f)@ + line_devices_text(
                self.bat_devices@,
                durations@.map_values(|s: String| s@),
            ),
    {
        let ghost start = f@;
        let ghost entries = self.bat_devices@;
        let ghost durs = durations@.map_values(|s: String| s@);
        let n = self.bat_devices.len();
        let mut i: usize = 0;
        while i < n
            invariant
                i <= n,
                n == entries.len(),
                entries == self.bat_devices@,
                durations@.len() == n,
                durs == durations@.map_values(|s: String| s@),
                f@ == start + line_devices_text(entries.take(i as int), durs.take(i as int)),
            decreases n - i,
        {
            let d = self.bat_devices.device(i);
            let ghost prev = f@;
            string_push_str(f, type_icon(d.bat_type));
            string_push_str(f, battery_icon(d.state, d.percentage));
            let pct = decimal(d.percentage as u64);
            string_push_str(f, pct.as_str());
            string_push_str(f, "% ");
            if d.state != BatteryState::Unknown {
                string_push_str(f, durations[i].as_str());
                string_push_str(f, d.time.icon());
                string_push(f, ' ');
            }
            string_push_str(f, "\u{e0b1} ");
            proof {
                reveal_strlit("% ");
                reveal_strlit("\u{e0b1} ");
                assert(entries.take(i + 1).drop_last() =~= entries.take(i as int));
                assert(durs.take(i + 1).drop_last() =~= durs.take(i as int));
                assert(entries.take(i + 1).last() == entries[i as int]);
                assert(durs.take(i + 1).last() == durations@[i as int]@);
                assert(f@ =~= prev + line_device_text(d, durations@[i as int]@));
            }
            i = i + 1;
        }
        proof {
            assert(entries.take(n as int) =~= entries);
            assert(durs.take(n as int) =~= durs);
        }
    }

    fn push_tail(&self, f: &mut String)
        ensures
            final(f)@ == old(f)@ + line_tail_text(
                self.online,
                self.connected_service@,
                self.playing,
                song_view(self),
            ),
    {
        let ghost start = f@;
        string_push_str(f, self.online.icon());
        if self.online.is_connected() {
            string_push_str(f, self.connected_service.as_str());
        }
        string_push_str(f, "  ");
        string_push_str(f, self.playing.icon());
        if self.playing != PlaybackStatus::Stopped {
            string_push_str(f, self.song_metadata.0.as_str());
            string_push_str(f, " - ");
            string_push_str(f, self.song_metadata.1.as_str());
        }
        proof {
            reveal_strlit("  ");
            reveal_strlit(" - ");
        }
        assert(f@ =~= start + line_tail_text(self.online, self.connected_service@, self.playing, song_view(self)));
    }

    /// The status line at the time `clock`; `durations[i]` is the remaining
    /// time of the `i`-th power source written out.
    pub fn status_line(&self, clock: &ClockFields, durations: &Vec<String>) -> (line: String)
        requires
            clock_ok(*clock),
            durations@.len() == self.bat_devices@.len(),
        ensures
            line@ == status_line_spec(self, *clock, durations@.map_values(|s: String| s@)),
    {
        let mut f = String::new();
        push_clock(&mut f, clock);
        let ghost after_clock = f@;
        string_push_str(&mut f, brightness_icon(self.brightness));
        let b = decimal(self.brightness as u64);
        string_push_str(&mut f, b.as_str());
        string_push_str(&mut f, "%  ");
        let ghost after_brightness = f@;
        self.push_devices(durations, &mut f);
        let ghost after_devices = f@;
        self.push_tail(&mut f);
        proof {
            reveal_strlit("%  ");
            assert(after_brightness =~= clock_text(*clock) + brightness_icon_spec(self.brightness)
                + decimal_spec(self.brightness as nat) + "%  "@);
            assert(f@ =~= status_line_spec(self, *clock, durations@.map_values(|s: String| s@)));
        }
        f
    }
}

/// What the bar prints before its first status line: the i3bar protocol
/// header and the opening of the endless array, with an empty first entry.
pub fn i3bar_header() -> (r: &'static str)
    ensures
        r@ == "{ \"version\": 1 }\n[\n[]"@,
{
    "{ \"version\": 1 }\n[\n[]"
}

/// One entry of the i3bar array: the status line as the only block's full
/// text, written as it is.
pub fn i3bar_record(line: &str) -> (r: String)
    ensures
        r@ == ",[{\"full_text\":\""@ + line@ + "\"}]"@,
{
    let mut r = String::new();
    string_push_str(&mut r, ",[{\"full_text\":\"");
    string_push_str(&mut r, line);
    string_push_str(&mut r, "\"}]");
    r
}

/// The status line ends with the player: its icon, then, in every state but
/// `Stopped` (so also while paused), the song title, ` - ` and the artist;
/// when stopped, the line ends with the icon alone.
pub proof fn lemma_song_shown_unless_stopped(d: &SharedData, clock: ClockFields, durations: Seq<Seq<char>>)
    ensures
        ({
            let line = status_line_spec(d, clock, durations);
            let end = if d.playing != PlaybackStatus::Stopped {
                playback_icon_spec(d.playing) + d.song_metadata.0@ + " - "@ + d.song_metadata.1@
            } else {
                playback_icon_spec(d.playing)
            };
            &&& line.len() >= end.len()
            &&& line.subrange(line.len() - end.len(), line.len() as int) == end
        }),
{
    let line = status_line_spec(d, clock, durations);
    let end = if d.playing != PlaybackStatus::Stopped {
        playback_icon_spec(d.playing) + d.song_metadata.0@ + " - "@ + d.song_metadata.1@
    } else {
        playback_icon_spec(d.playing)
    };
    let start = clock_text(clock) + brightness_icon_spec(d.brightness) + decimal_spec(d.brightness as nat)
        + "%  "@ + line_devices_text(d.bat_devices@, durations) + connman_icon_spec(d.online) + (if is_connected(
        d.online,
    ) {
        d.connected_service@
    } else {
        Seq::empty()
    }) + "  "@;
    assert(line =~= start + end);
    assert(line.subrange(start.len() as int, line.len() as int) =~= end);
}

} // verus!
