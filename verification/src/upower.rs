//! UPower device enumerations, decoded from the integers that UPower sends.
use vstd::prelude::*;

verus! {

/// The charge state of a power source; out-of-range codes read as `Unknown`.
#[derive(Clone, Copy, Debug, PartialEq, Eq, Hash, Structural)]
pub enum BatteryState {
    Unknown,
    Charging,
    Discharging,
    Empty,
    FullyCharged,
    PendingCharge,
    PendingDischarge,
}

/// The warning level of a power source; out-of-range codes read as `Unknown`.
#[derive(Clone, Copy, Debug, PartialEq, Eq, Hash, Structural)]
pub enum WarningLevel {
    Unknown,
    Nothing,
    Discharging,
    Low,
    Critical,
    Action,
}

/// The kind of a power source; out-of-range codes read as `Unknown`.
#[derive(Clone, Copy, Debug, PartialEq, Eq, Hash, Structural)]
pub enum BatteryType {
    Unknown,
    LinePower,
    Battery,
    Ups,
    Monitor,
    Mouse,
    Keyboard,
    Pda,
    Phone,
    MediaPlayer,
    Tablet,
    Computer,
    GamingInput,
    Pen,
    Touchpad,
    Modem,
    Network,
    Headset,
    Speakers,
    Headphones,
    Video,
    OtherAudio,
    RemoteControl,
    Printer,
    Scanner,
    Camera,
    Wearable,
    Toy,
    BluetoothGeneric,
    Last,
}

/// The UPower code of a battery state.
pub open spec fn battery_state_code(s: BatteryState) -> u32 {
    match s {
        BatteryState::Unknown => 0,
        BatteryState::Charging => 1,
        BatteryState::Discharging => 2,
        BatteryState::Empty => 3,
        BatteryState::FullyCharged => 4,
        BatteryState::PendingCharge => 5,
        BatteryState::PendingDischarge => 6,
    }
}

/// The battery state that a UPower code stands for.
pub open spec fn battery_state_from(v: u32) -> BatteryState {
    if v == 1 { BatteryState::Charging }
    else if v == 2 { BatteryState::Discharging }
    else if v == 3 { BatteryState::Empty }
    else if v == 4 { BatteryState::FullyCharged }
    else if v == 5 { BatteryState::PendingCharge }
    else if v == 6 { BatteryState::PendingDischarge }
    else { BatteryState::Unknown }
}

impl BatteryState {
    /// Decodes a UPower state code.
    pub fn from_u32(v: u32) -> (s: Self)
        ensures
            s == battery_state_from(v),
            v <= 6 ==> battery_state_code(s) == v,
            v > 6 ==> s == BatteryState::Unknown,
    {
        match v {
            1 => BatteryState::Charging,
            2 => BatteryState::Discharging,
            3 => BatteryState::Empty,
            4 => BatteryState::FullyCharged,
            5 => BatteryState::PendingCharge,
            6 => BatteryState::PendingDischarge,
            _ => BatteryState::Unknown,
        }
    }
}

/// The UPower code of a warning level.
pub open spec fn warning_level_code(s: WarningLevel) -> u32 {
    match s {
        WarningLevel::Unknown => 0,
        WarningLevel::Nothing => 1,
        WarningLevel::Discharging => 2,
        WarningLevel::Low => 3,
        WarningLevel::Critical => 4,
        WarningLevel::Action => 5,
    }
}

impl WarningLevel {
    /// Decodes a UPower warning-level code.
    pub fn from_u32(v: u32) -> (s: Self)
        ensures
            v <= 5 ==> warning_level_code(s) == v,
            v > 5 ==> s == WarningLevel::Unknown,
    {
        match v {
            1 => WarningLevel::Nothing,
            2 => WarningLevel::Discharging,
            3 => WarningLevel::Low,
            4 => WarningLevel::Critical,
            5 => WarningLevel::Action,
            _ => WarningLevel::Unknown,
        }
    }
}

/// The UPower code of a device kind.
pub open spec fn battery_type_code(t: BatteryType) -> u32 {
    match t {
        BatteryType::Unknown => 0,
        BatteryType::LinePower => 1,
        BatteryType::Battery => 2,
        BatteryType::Ups => 3,
        BatteryType::Monitor => 4,
        BatteryType::Mouse => 5,
        BatteryType::Keyboard => 6,
        BatteryType::Pda => 7,
        BatteryType::Phone => 8,
        BatteryType::MediaPlayer => 9,
        BatteryType::Tablet => 10,
        BatteryType::Computer => 11,
        BatteryType::GamingInput => 12,
        BatteryType::Pen => 13,
        BatteryType::Touchpad => 14,
        BatteryType::Modem => 15,
        BatteryType::Network => 16,
        BatteryType::Headset => 17,
        BatteryType::Speakers => 18,
        BatteryType::Headphones => 19,
        BatteryType::Video => 20,
        BatteryType::OtherAudio => 21,
        BatteryType::RemoteControl => 22,
        BatteryType::Printer => 23,
        BatteryType::Scanner => 24,
        BatteryType::Camera => 25,
        BatteryType::Wearable => 26,
        BatteryType::Toy => 27,
        BatteryType::BluetoothGeneric => 28,
        BatteryType::Last => 29,
    }
}

impl BatteryType {
    /// Decodes a UPower device-kind code.
    pub fn from_u32(v: u32) -> (t: Self)
        ensures
            v <= 29 ==> battery_type_code(t) == v,
            v > 29 ==> t == BatteryType::Unknown,
    {
        match v {
            1 => BatteryType::LinePower,
            2 => BatteryType::Battery,
            3 => BatteryType::Ups,
            4 => BatteryType::Monitor,
            5 => BatteryType::Mouse,
            6 => BatteryType::Keyboard,
            7 => BatteryType::Pda,
            8 => BatteryType::Phone,
            9 => BatteryType::MediaPlayer,
            10 => BatteryType::Tablet,
            11 => BatteryType::Computer,
            12 => BatteryType::GamingInput,
            13 => BatteryType::Pen,
            14 => BatteryType::Touchpad,
            15 => BatteryType::Modem,
            16 => BatteryType::Network,
            17 => BatteryType::Headset,
            18 => BatteryType::Speakers,
            19 => BatteryType::Headphones,
            20 => BatteryType::Video,
            21 => BatteryType::OtherAudio,
            22 => BatteryType::RemoteControl,
            23 => BatteryType::Printer,
            24 => BatteryType::Scanner,
            25 => BatteryType::Camera,
            26 => BatteryType::Wearable,
            27 => BatteryType::Toy,
            28 => BatteryType::BluetoothGeneric,
            29 => BatteryType::Last,
            _ => BatteryType::Unknown,
        }
    }

    /// Whether the bar shows a device of this kind (everything but mains power
    /// and unknown devices).
    pub fn is_shown(&self) -> (r: bool)
        ensures
            r == (*self != BatteryType::LinePower && *self != BatteryType::Unknown),
    {
        match self {
            BatteryType::LinePower | BatteryType::Unknown => false,
            _ => true,
        }
    }
}

} // verus!
