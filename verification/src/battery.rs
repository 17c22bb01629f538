//! The battery block: UPower devices, their icons and their line of text.
use vstd::prelude::*;
use crate::strings::{decimal, decimal_spec, str_eq, string_pop, string_push_str};
use crate::upower::{battery_state_from, BatteryState, BatteryType};

verus! {

/// The icon for a device kind (empty for plain batteries).
pub open spec fn type_icon_spec(t: BatteryType) -> Seq<char> {
    match t {
        BatteryType::Unknown | BatteryType::Battery => ""@,
        BatteryType::LinePower | BatteryType::Ups => "\u{f06a5} "@,
        BatteryType::Monitor => "\u{f0379} "@,
        BatteryType::Mouse => "\u{f037d} "@,
        BatteryType::Keyboard => "\u{f030c} "@,
        BatteryType::Pda => "\u{f0648} "@,
        BatteryType::Phone => "\u{f011c} "@,
        BatteryType::MediaPlayer => "\u{f093d} "@,
        BatteryType::Tablet => "\u{f04f6} "@,
        BatteryType::Computer => "\u{f01c5} "@,
        BatteryType::GamingInput => "\u{f0296} "@,
        BatteryType::Pen => "\u{f03ea} "@,
        BatteryType::Touchpad => "\u{f07f8} "@,
        BatteryType::Modem => "\u{f1087} "@,
        BatteryType::Network => "\u{f0002} "@,
        BatteryType::Headset => "\u{f02ce} "@,
        BatteryType::Speakers => "\u{f04c3} "@,
        BatteryType::Headphones => "\u{f02cb} "@,
        BatteryType::Video => "\u{f0567} "@,
        BatteryType::OtherAudio => "\u{f186c} "@,
        BatteryType::RemoteControl => "\u{f0454} "@,
        BatteryType::Printer => "\u{f042a} "@,
        BatteryType::Scanner => "\u{f06ab} "@,
        BatteryType::Camera => "\u{f0100} "@,
        BatteryType::Wearable => "\u{f0589} "@,
        BatteryType::Toy => "\u{f1288} "@,
        BatteryType::BluetoothGeneric => "\u{f00af} "@,
        BatteryType::Last => "\u{f0601} "@,
    }
}

/// The icon for a device kind (empty for plain batteries).
pub fn type_icon(t: BatteryType) -> (r: &'static str)
    ensures
        r@ == type_icon_spec(t),
{
    match t {
        BatteryType::Unknown | BatteryType::Battery => "",
        BatteryType::LinePower | BatteryType::Ups => "\u{f06a5} ",
        BatteryType::Monitor => "\u{f0379} ",
        BatteryType::Mouse => "\u{f037d} ",
        BatteryType::Keyboard => "\u{f030c} ",
        BatteryType::Pda => "\u{f0648} ",
        BatteryType::Phone => "\u{f011c} ",
        BatteryType::MediaPlayer => "\u{f093d} ",
        BatteryType::Tablet => "\u{f04f6} ",
        BatteryType::Computer => "\u{f01c5} ",
        BatteryType::GamingInput => "\u{f0296} ",
        BatteryType::Pen => "\u{f03ea} ",
        BatteryType::Touchpad => "\u{f07f8} ",
        BatteryType::Modem => "\u{f1087} ",
        BatteryType::Network => "\u{f0002} ",
        BatteryType::Headset => "\u{f02ce} ",
        BatteryType::Speakers => "\u{f04c3} ",
        BatteryType::Headphones => "\u{f02cb} ",
        BatteryType::Video => "\u{f0567} ",
        BatteryType::OtherAudio => "\u{f186c} ",
        BatteryType::RemoteControl => "\u{f0454} ",
        BatteryType::Printer => "\u{f042a} ",
        BatteryType::Scanner => "\u{f06ab} ",
        BatteryType::Camera => "\u{f0100} ",
        BatteryType::Wearable => "\u{f0589} ",
        BatteryType::Toy => "\u{f1288} ",
        BatteryType::BluetoothGeneric => "\u{f00af} ",
        BatteryType::Last => "\u{f0601} ",
    }
}

/// The battery icon for a state and a charge percentage: while charging or
/// discharging it shows the charge in steps of ten percent.
pub open spec fn battery_icon_spec(state: BatteryState, pct: u32) -> Seq<char> {
    match state {
        BatteryState::Discharging | BatteryState::Unknown => {
            if pct <= 9 { "\u{f008e} "@ }
            else if pct <= 19 { "\u{f007a} "@ }
            else if pct <= 29 { "\u{f007b} "@ }
            else if pct <= 39 { "\u{f007c} "@ }
            else if pct <= 49 { "\u{f007d} "@ }
            else if pct <= 59 { "\u{f007e} "@ }
            else if pct <= 69 { "\u{f007f} "@ }
            else if pct <= 79 { "\u{f0080} "@ }
            else if pct <= 89 { "\u{f0081} "@ }
            else if pct <= 99 { "\u{f0082} "@ }
            else { "\u{f0079} "@ }
        },
        BatteryState::Charging => {
            if pct <= 9 { "\u{f089f} "@ }
            else if pct <= 19 { "\u{f089c} "@ }
            else if pct <= 29 { "\u{f0086} "@ }
            else if pct <= 39 { "\u{f0087} "@ }
            else if pct <= 49 { "\u{f0088} "@ }
            else if pct <= 59 { "\u{f089d} "@ }
            else if pct <= 69 { "\u{f0089} "@ }
            else if pct <= 79 { "\u{f089e} "@ }
            else if pct <= 89 { "\u{f008a} "@ }
            else if pct <= 99 { "\u{f008b} "@ }
            else { "\u{f0085} "@ }
        },
        BatteryState::FullyCharged => "\u{f0084} "@,
        BatteryState::PendingCharge => "\u{f1834} "@,
        BatteryState::PendingDischarge => "\u{f1835} "@,
        BatteryState::Empty => "\u{f0083} "@,
    }
}

/// The battery icon for a state and a charge percentage.
pub fn battery_icon(state: BatteryState, pct: u32) -> (r: &'static str)
    ensures
        r@ == battery_icon_spec(state, pct),
{
    match state {
        BatteryState::Discharging | BatteryState::Unknown => {
            if pct <= 9 { "\u{f008e} " }
            else if pct <= 19 { "\u{f007a} " }
            else if pct <= 29 { "\u{f007b} " }
            else if pct <= 39 { "\u{f007c} " }
            else if pct <= 49 { "\u{f007d} " }
            else if pct <= 59 { "\u{f007e} " }
            else if pct <= 69 { "\u{f007f} " }
            else if pct <= 79 { "\u{f0080} " }
            else if pct <= 89 { "\u{f0081} " }
            else if pct <= 99 { "\u{f0082} " }
            else { "\u{f0079} " }
        },
        BatteryState::Charging => {
            if pct <= 9 { "\u{f089f} " }
            else if pct <= 19 { "\u{f089c} " }
            else if pct <= 29 { "\u{f0086} " }
            else if pct <= 39 { "\u{f0087} " }
            else if pct <= 49 { "\u{f0088} " }
            else if pct <= 59 { "\u{f089d} " }
            else if pct <= 69 { "\u{f0089} " }
            else if pct <= 79 { "\u{f089e} " }
            else if pct <= 89 { "\u{f008a} " }
            else if pct <= 99 { "\u{f008b} " }
            else { "\u{f0085} " }
        },
        BatteryState::FullyCharged => "\u{f0084} ",
        BatteryState::PendingCharge => "\u{f1834} ",
        BatteryState::PendingDischarge => "\u{f1835} ",
        BatteryState::Empty => "\u{f0083} ",
    }
}

/// How long until a battery is full or empty, in whole seconds.
#[derive(Clone, Copy, Debug, PartialEq, Eq, Structural)]
pub enum TimeTo {
    Empty(i64),
    Full(i64),
    Unknown,
}

/// The unit that a remaining time is written in.
#[derive(Clone, Copy, Debug, PartialEq, Eq, Structural)]
pub enum TimeUnit {
    Seconds,
    Minutes,
    Hours,
    Days,
}

/// The icon for a remaining-time estimate.
pub open spec fn time_icon_spec(t: TimeTo) -> Seq<char> {
    match t {
        TimeTo::Empty(_) => "\u{f0046}"@,
        TimeTo::Full(_) => "\u{f005e}"@,
        TimeTo::Unknown => "\u{f0453}"@,
    }
}

/// The unit that a remaining time is written in; nothing is written for an
/// unknown or negative time.
pub open spec fn time_unit_spec(t: TimeTo) -> Option<TimeUnit> {
    match t {
        TimeTo::Empty(c) | TimeTo::Full(c) => if c < 0 {
            None
        } else if c < 60 {
            Some(TimeUnit::Seconds)
        } else if c < 3600 {
            Some(TimeUnit::Minutes)
        } else if c < 86400 {
            Some(TimeUnit::Hours)
        } else {
            Some(TimeUnit::Days)
        },
        TimeTo::Unknown => None,
    }
}

impl TimeTo {
    /// The icon for this estimate.
    pub fn icon(&self) -> (r: &'static str)
        ensures
            r@ == time_icon_spec(*self),
    {
        match self {
            TimeTo::Empty(_) => "\u{f0046}",
            TimeTo::Full(_) => "\u{f005e}",
            TimeTo::Unknown => "\u{f0453}",
        }
    }

    /// The unit this estimate is written in, if it is written at all.
    pub fn unit(&self) -> (r: Option<TimeUnit>)
        ensures
            r == time_unit_spec(*self),
    {
        match self {
            TimeTo::Empty(c) | TimeTo::Full(c) => {
                let c = *c;
                if c < 0 {
                    None
                } else if c < 60 {
                    Some(TimeUnit::Seconds)
                } else if c < 3600 {
                    Some(TimeUnit::Minutes)
                } else if c < 86400 {
                    Some(TimeUnit::Hours)
                } else {
                    Some(TimeUnit::Days)
                }
            },
            TimeTo::Unknown => None,
        }
    }
}

/// One power source shown in the bar.
#[derive(Clone, Copy, Debug, PartialEq, Eq, Structural)]
pub struct BatteryDevice {
    pub state: BatteryState,
    pub time: TimeTo,
    pub bat_type: BatteryType,
    pub percentage: u32,
}

/// Whether a state counts as filling up (the estimate is a time to full).
pub open spec fn is_filling(s: BatteryState) -> bool {
    s == BatteryState::Charging || s == BatteryState::FullyCharged || s == BatteryState::PendingCharge
}

/// The device that UPower's properties describe, or nothing for mains power
/// and unknown devices. A zero estimate means the time is unknown.
pub open spec fn device_from_properties(
    bat_type: BatteryType,
    percentage: u32,
    state: u32,
    time_to_full: i64,
    time_to_empty: i64,
) -> Option<BatteryDevice> {
    if bat_type == BatteryType::LinePower || bat_type == BatteryType::Unknown {
        None
    } else {
        let st = battery_state_from(state);
        let c = if is_filling(st) { time_to_full } else { time_to_empty };
        let time = if c == 0 {
            TimeTo::Unknown
        } else if is_filling(st) {
            TimeTo::Full(c)
        } else {
            TimeTo::Empty(c)
        };
        Some(BatteryDevice { state: st, time, bat_type, percentage })
    }
}

/// The properties that a `PropertiesChanged` signal changed; absent ones stay.
#[derive(Clone, Copy, Debug, PartialEq, Eq, Structural)]
pub struct PropertyChanges {
    pub percentage: Option<u32>,
    pub state: Option<u32>,
    pub time_to_empty: Option<i64>,
    pub time_to_full: Option<i64>,
}

/// A device after a `PropertiesChanged` signal: a new state forgets the time
/// estimate; a positive time to empty, then a positive time to full, replace it.
pub open spec fn apply_changes(d: BatteryDevice, c: PropertyChanges) -> BatteryDevice {
    let d1 = match c.percentage {
        Some(p) => BatteryDevice { percentage: p, ..d },
        None => d,
    };
    let d2 = match c.state {
        Some(s) => BatteryDevice { state: battery_state_from(s), time: TimeTo::Unknown, ..d1 },
        None => d1,
    };
    let d3 = match c.time_to_empty {
        Some(t) => if t > 0 { BatteryDevice { time: TimeTo::Empty(t), ..d2 } } else { d2 },
        None => d2,
    };
    match c.time_to_full {
        Some(t) => if t > 0 { BatteryDevice { time: TimeTo::Full(t), ..d3 } } else { d3 },
        None => d3,
    }
}

impl BatteryDevice {
    /// The device for the given UPower properties, or `None` for mains power
    /// and unknown devices.
    pub fn from_properties(
        bat_type: BatteryType,
        percentage: u32,
        state: u32,
        time_to_full: i64,
        time_to_empty: i64,
    ) -> (r: Option<BatteryDevice>)
        ensures
            r == device_from_properties(bat_type, percentage, state, time_to_full, time_to_empty),
    {
        if !bat_type.is_shown() {
            return None;
        }
        let st = BatteryState::from_u32(state);
        let filling = match st {
            BatteryState::Charging | BatteryState::FullyCharged | BatteryState::PendingCharge => true,
            _ => false,
        };
        let time = if filling {
            if time_to_full == 0 { TimeTo::Unknown } else { TimeTo::Full(time_to_full) }
        } else {
            if time_to_empty == 0 { TimeTo::Unknown } else { TimeTo::Empty(time_to_empty) }
        };
        Some(BatteryDevice { state: st, time, bat_type, percentage })
    }

    /// Applies a `PropertiesChanged` signal to this device.
    pub fn apply(&mut self, changes: &PropertyChanges)
        ensures
            *final(self) == apply_changes(*old(self), *changes),
    {
        if let Some(p) = changes.percentage {
            self.percentage = p;
        }
        if let Some(s) = changes.state {
            self.state = BatteryState::from_u32(s);
            self.time = TimeTo::Unknown;
        }
        if let Some(t) = changes.time_to_empty {
            if t > 0 {
                self.time = TimeTo::Empty(t);
            }
        }
        if let Some(t) = changes.time_to_full {
            if t > 0 {
                self.time = TimeTo::Full(t);
            }
        }
    }

    /// The icon shown for this device in the table view: its kind's icon, or
    /// the battery icon for plain batteries.
    pub fn table_icon(&self) -> (r: &'static str)
        ensures
            r@ == if type_icon_spec(self.bat_type).len() == 0 {
                battery_icon_spec(self.state, self.percentage)
            } else {
                type_icon_spec(self.bat_type)
            },
    {
        let t = type_icon(self.bat_type);
        if t.is_empty() {
            battery_icon(self.state, self.percentage)
        } else {
            t
        }
    }
}

/// The text for one device; `duration` is its remaining time written out.
pub open spec fn device_text(d: BatteryDevice, duration: Seq<char>) -> Seq<char> {
    seq![' '] + type_icon_spec(d.bat_type) + battery_icon_spec(d.state, d.percentage)
        + decimal_spec(d.percentage as nat) + seq!['%', ' '] + (if d.state != BatteryState::Unknown {
        duration + time_icon_spec(d.time)
    } else {
        Seq::empty()
    }) + seq![' ']
}

/// The texts of several devices, one after the other.
pub open spec fn devices_text(
    entries: Seq<(Seq<char>, BatteryDevice)>,
    durations: Seq<Seq<char>>,
) -> Seq<char>
    decreases entries.len(),
{
    if entries.len() == 0 || durations.len() == 0 {
        Seq::empty()
    } else {
        devices_text(entries.drop_last(), durations.drop_last()) + device_text(
            entries.last().1,
            durations.last(),
        )
    }
}

/// Whether some entry is for `path`.
pub open spec fn has_path(entries: Seq<(Seq<char>, BatteryDevice)>, path: Seq<char>) -> bool {
    exists|i: int| 0 <= i < entries.len() && #[trigger] entries[i].0 == path
}

/// The position of the entry for `path` (meaningful only when there is one).
pub open spec fn path_index(entries: Seq<(Seq<char>, BatteryDevice)>, path: Seq<char>) -> int {
    choose|i: int| 0 <= i < entries.len() && #[trigger] entries[i].0 == path
}

/// No path appears twice.
pub open spec fn distinct_paths(entries: Seq<(Seq<char>, BatteryDevice)>) -> bool {
    forall|i: int, j: int|
        0 <= i < entries.len() && 0 <= j < entries.len() && i != j ==> #[trigger] entries[i].0
            != #[trigger] entries[j].0
}

/// The device shown for `path`, if any.
pub open spec fn device_at(entries: Seq<(Seq<char>, BatteryDevice)>, path: Seq<char>) -> Option<
    BatteryDevice,
> {
    if has_path(entries, path) {
        Some(entries[path_index(entries, path)].1)
    } else {
        None
    }
}

/// Showing a device under a path that is not shown yet and then removing
/// that path gives back the devices as they were.
pub proof fn lemma_remove_undoes_insert(
    entries: Seq<(Seq<char>, BatteryDevice)>,
    path: Seq<char>,
    device: BatteryDevice,
)
    requires
        !has_path(entries, path),
    ensures
        has_path(entries.push((path, device)), path),
        entries.push((path, device)).remove(path_index(entries.push((path, device)), path)) == entries,
{
    let after = entries.push((path, device));
    assert(after[entries.len() as int].0 == path);
    assert(has_path(after, path));
    let i = path_index(after, path);
    assert(after[i].0 == path);
    if i < entries.len() {
        assert(entries[i] == after[i]);
        assert(has_path(entries, path));
    }
    assert(i == entries.len());
    assert(after.remove(i) =~= entries);
}

/// The devices shown by the bar, keyed by their D-Bus object path.
pub struct BatteryBlock {
    bat_devices: Vec<(String, BatteryDevice)>,
}

impl BatteryBlock {
    #[verifier::type_invariant]
    spec fn paths_distinct(self) -> bool {
        distinct_paths(self@)
    }
}

impl View for BatteryBlock {
    type V = Seq<(Seq<char>, BatteryDevice)>;

    closed spec fn view(&self) -> Seq<(Seq<char>, BatteryDevice)> {
        self.bat_devices@.map_values(|e: (String, BatteryDevice)| (e.0@, e.1))
    }
}

impl BatteryBlock {
    /// No devices.
    pub fn new() -> (b: Self)
        ensures
            b@ == Seq::<(Seq<char>, BatteryDevice)>::empty(),
            distinct_paths(b@),
    {
        let b = BatteryBlock { bat_devices: Vec::new() };
        assert(b@ =~= Seq::<(Seq<char>, BatteryDevice)>::empty());
        b
    }

    fn find(&self, path: &str) -> (r: Option<usize>)
        ensures
            match r {
                Some(i) => i < self@.len() && self@[i as int].0 == path@ && path_index(self@, path@) == i
                    && has_path(self@, path@),
                None => !has_path(self@, path@),
            },
    {
        proof {
            use_type_invariant(self);
        }
        let mut i: usize = 0;
        while i < self.bat_devices.len()
            invariant
                i <= self.bat_devices.len(),
                self@.len() == self.bat_devices@.len(),
                forall|j: int| 0 <= j < i ==> #[trigger] self@[j].0 != path@,
                distinct_paths(self@),
            decreases self.bat_devices.len() - i,
        {
            assert(self@[i as int].0 == self.bat_devices@[i as int].0@);
            if str_eq(self.bat_devices[i].0.as_str(), path) {
                proof {
                    assert(has_path(self@, path@));
                    let k = path_index(self@, path@);
                    assert(self@[k].0 == path@);
                    assert(distinct_paths(self@));
                }
                return Some(i);
            }
            i = i + 1;
        }
        None
    }

    /// How many devices are shown.
    pub fn len(&self) -> (n: usize)
        ensures
            n == self@.len(),
    {
        self.bat_devices.len()
    }

    /// The `i`-th device shown.
    pub fn device(&self, i: usize) -> (d: BatteryDevice)
        requires
            i < self@.len(),
        ensures
            d == self@[i as int].1,
    {
        self.bat_devices[i].1
    }

    /// The device shown for `path`, if any.
    pub fn get(&self, path: &str) -> (r: Option<BatteryDevice>)
        ensures
            r == device_at(self@, path@),
    {
        match self.find(path) {
            Some(i) => Some(self.bat_devices[i].1),
            None => None,
        }
    }

    /// Shows `device` under `path`, replacing what was shown there.
    pub fn insert(&mut self, path: &str, device: BatteryDevice)
        ensures
            has_path(old(self)@, path@) ==> final(self)@ == old(self)@.update(
                path_index(old(self)@, path@),
                (path@, device),
            ),
            !has_path(old(self)@, path@) ==> final(self)@ == old(self)@.push((path@, device)),
            device_at(final(self)@, path@) == Some(device),
            distinct_paths(final(self)@),
    {
        proof {
            use_type_invariant(&*self);
        }
        let ghost before = self@;
        let found = self.find(path);
        let mut devices = Vec::new();
        std::mem::swap(&mut devices, &mut self.bat_devices);
        match found {
            Some(i) => {
                devices.set(i, (path.to_owned(), device));
            },
            None => {
                devices.push((path.to_owned(), device));
            },
        }
        let ghost after = devices@.map_values(|e: (String, BatteryDevice)| (e.0@, e.1));
        proof {
            match found {
                Some(i) => {
                    assert(after =~= before.update(i as int, (path@, device)));
                    assert(after[i as int].0 == path@);
                },
                None => {
                    assert(after =~= before.push((path@, device)));
                    assert(after[before.len() as int].0 == path@);
                },
            }
            assert(distinct_paths(after));
            assert(has_path(after, path@));
            assert(after[path_index(after, path@)].0 == path@);
        }
        self.bat_devices = devices;
    }

    /// Stops showing the device under `path`.
    pub fn remove(&mut self, path: &str)
        ensures
            has_path(old(self)@, path@) ==> final(self)@ == old(self)@.remove(
                path_index(old(self)@, path@),
            ),
            !has_path(old(self)@, path@) ==> final(self)@ == old(self)@,
            device_at(final(self)@, path@) is None,
            distinct_paths(final(self)@),
    {
        proof {
            use_type_invariant(&*self);
        }
        let ghost before = self@;
        let found = self.find(path);
        match found {
            Some(i) => {
                let mut devices = Vec::new();
                std::mem::swap(&mut devices, &mut self.bat_devices);
                devices.remove(i);
                let ghost after = devices@.map_values(|e: (String, BatteryDevice)| (e.0@, e.1));
                proof {
                    assert(after =~= before.remove(i as int));
                    assert forall|j: int| 0 <= j < after.len() implies after[j].0 != path@ by {
                        if j < i {
                            assert(after[j] == before[j]);
                        } else {
                            assert(after[j] == before[j + 1]);
                        }
                    }
                }
                self.bat_devices = devices;
            },
            None => {},
        }
    }

    /// Applies a `PropertiesChanged` signal sent for the device under `path`;
    /// signals for devices not shown are ignored.
    pub fn query_battery(&mut self, path: &str, changes: &PropertyChanges)
        ensures
            has_path(old(self)@, path@) ==> final(self)@ == old(self)@.update(
                path_index(old(self)@, path@),
                (path@, apply_changes(old(self)@[path_index(old(self)@, path@)].1, *changes)),
            ),
            !has_path(old(self)@, path@) ==> final(self)@ == old(self)@,
            distinct_paths(final(self)@),
    {
        proof {
            use_type_invariant(&*self);
        }
        if let Some(mut d) = self.get(path) {
            d.apply(changes);
            self.insert(path, d);
        }
    }

    /// Appends the bar text for all devices to `f`, then drops the last
    /// character; `durations[i]` is the written-out remaining time of the
    /// `i`-th device.
    pub fn fmt(&self, durations: &Vec<String>, f: &mut String)
        requires
            durations@.len() == self@.len(),
        ensures
            final(f)@ == (old(f)@ + devices_text(self@, durations@.map_values(|s: String| s@))).drop_last()
                || (old(f)@ + devices_text(self@, durations@.map_values(|s: String| s@))).len() == 0
                && final(f)@.len() == 0,
    {
        let ghost start = f@;
        let ghost durs = durations@.map_values(|s: String| s@);
        let mut i: usize = 0;
        while i < self.bat_devices.len()
            invariant
                i <= self.bat_devices.len(),
                self@.len() == self.bat_devices@.len(),
                durations@.len() == self@.len(),
                durs == durations@.map_values(|s: String| s@),
                f@ == start + devices_text(self@.take(i as int), durs.take(i as int)),
            decreases self.bat_devices.len() - i,
        {
            let d = self.bat_devices[i].1;
            let ghost prev = f@;
            string_push_str(f, " ");
            string_push_str(f, type_icon(d.bat_type));
            string_push_str(f, battery_icon(d.state, d.percentage));
            let pct = decimal(d.percentage as u64);
            string_push_str(f, pct.as_str());
            string_push_str(f, "% ");
            if d.state != BatteryState::Unknown {
                string_push_str(f, durations[i].as_str());
                string_push_str(f, d.time.icon());
            }
            string_push_str(f, " ");
            proof {
                reveal_strlit(" ");
                reveal_strlit("% ");
                assert(self@.take(i + 1).drop_last() =~= self@.take(i as int));
                assert(durs.take(i + 1).drop_last() =~= durs.take(i as int));
                assert(self@.take(i + 1).last() == self@[i as int]);
                assert(self@[i as int].1 == d);
                assert(durs.take(i + 1).last() == durations@[i as int]@);
                assert(f@ =~= prev + device_text(d, durations@[i as int]@));
            }
            i = i + 1;
        }
        proof {
            assert(self@.take(self@.len() as int) =~= self@);
            assert(durs.take(durs.len() as int) =~= durs);
        }
        string_pop(f);
    }
}

/// What a `PropertiesChanged` signal does to a device's estimate: a positive
/// time to full makes it a time to full; otherwise a positive time to empty
/// makes it a time to empty; otherwise a new state makes it unknown, and
/// without one it stays. The charge and the state are replaced when given,
/// and the device's kind never changes.
pub proof fn lemma_estimate_after_changes(d: BatteryDevice, c: PropertyChanges)
    ensures
        ({
            let after = apply_changes(d, c);
            let full = c.time_to_full is Some && c.time_to_full->0 > 0;
            let empty = c.time_to_empty is Some && c.time_to_empty->0 > 0;
            &&& (full ==> after.time == TimeTo::Full(c.time_to_full->0))
            &&& (!full && empty ==> after.time == TimeTo::Empty(c.time_to_empty->0))
            &&& (!full && !empty && c.state is Some ==> after.time == TimeTo::Unknown)
            &&& (!full && !empty && c.state is None ==> after.time == d.time)
            &&& after.percentage == match c.percentage {
                Some(p) => p,
                None => d.percentage,
            }
            &&& after.state == match c.state {
                Some(s) => battery_state_from(s),
                None => d.state,
            }
            &&& after.bat_type == d.bat_type
        }),
{
}

} // verus!
