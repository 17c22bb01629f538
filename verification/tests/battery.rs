use dotfiles::battery::{battery_icon, type_icon, BatteryBlock, BatteryDevice, PropertyChanges, TimeTo, TimeUnit};
use dotfiles::upower::{BatteryState, BatteryType, WarningLevel};

#[test]
fn codes_decode() {
    assert_eq!(BatteryState::from_u32(1), BatteryState::Charging);
    assert_eq!(BatteryState::from_u32(6), BatteryState::PendingDischarge);
    assert_eq!(BatteryState::from_u32(7), BatteryState::Unknown);
    assert_eq!(BatteryType::from_u32(2), BatteryType::Battery);
    assert_eq!(BatteryType::from_u32(29), BatteryType::Last);
    assert_eq!(BatteryType::from_u32(30), BatteryType::Unknown);
    assert_eq!(WarningLevel::from_u32(3), WarningLevel::Low);
    assert_eq!(WarningLevel::from_u32(1), WarningLevel::Nothing);
    assert_eq!(WarningLevel::from_u32(99), WarningLevel::Unknown);
}

#[test]
fn battery_icons_by_level() {
    assert_eq!(battery_icon(BatteryState::Discharging, 5), "\u{f008e} ");
    assert_eq!(battery_icon(BatteryState::Discharging, 55), "\u{f007e} ");
    assert_eq!(battery_icon(BatteryState::Unknown, 100), "\u{f0079} ");
    assert_eq!(battery_icon(BatteryState::Charging, 9), "\u{f089f} ");
    assert_eq!(battery_icon(BatteryState::Charging, 99), "\u{f008b} ");
    assert_eq!(battery_icon(BatteryState::FullyCharged, 3), "\u{f0084} ");
    assert_eq!(type_icon(BatteryType::Battery), "");
    assert_eq!(type_icon(BatteryType::Mouse), "\u{f037d} ");
}

#[test]
fn time_units() {
    assert_eq!(TimeTo::Empty(-5).unit(), None);
    assert_eq!(TimeTo::Empty(59).unit(), Some(TimeUnit::Seconds));
    assert_eq!(TimeTo::Full(60).unit(), Some(TimeUnit::Minutes));
    assert_eq!(TimeTo::Full(3599).unit(), Some(TimeUnit::Minutes));
    assert_eq!(TimeTo::Full(3600).unit(), Some(TimeUnit::Hours));
    assert_eq!(TimeTo::Empty(86400).unit(), Some(TimeUnit::Days));
    assert_eq!(TimeTo::Unknown.unit(), None);
    assert_eq!(TimeTo::Empty(1).icon(), "\u{f0046}");
    assert_eq!(TimeTo::Unknown.icon(), "\u{f0453}");
}

#[test]
fn devices_from_properties() {
    assert_eq!(BatteryDevice::from_properties(BatteryType::LinePower, 50, 1, 10, 10), None);
    assert_eq!(BatteryDevice::from_properties(BatteryType::Unknown, 50, 1, 10, 10), None);
    let charging = BatteryDevice::from_properties(BatteryType::Battery, 50, 1, 600, 7).unwrap();
    assert_eq!(charging.time, TimeTo::Full(600));
    assert_eq!(charging.state, BatteryState::Charging);
    let discharging = BatteryDevice::from_properties(BatteryType::Battery, 50, 2, 600, 7).unwrap();
    assert_eq!(discharging.time, TimeTo::Empty(7));
    let unknown = BatteryDevice::from_properties(BatteryType::Mouse, 50, 2, 600, 0).unwrap();
    assert_eq!(unknown.time, TimeTo::Unknown);
}

#[test]
fn block_insert_query_remove() {
    let mut b = BatteryBlock::new();
    let d = BatteryDevice::from_properties(BatteryType::Battery, 40, 2, 0, 100).unwrap();
    b.insert("/bat0", d);
    b.insert("/bat1", d);
    assert_eq!(b.get("/bat0"), Some(d));
    b.query_battery(
        "/bat0",
        &PropertyChanges { percentage: Some(39), state: Some(1), time_to_empty: None, time_to_full: Some(120) },
    );
    let d0 = b.get("/bat0").unwrap();
    assert_eq!(d0.percentage, 39);
    assert_eq!(d0.state, BatteryState::Charging);
    assert_eq!(d0.time, TimeTo::Full(120));
    b.query_battery(
        "/bat1",
        &PropertyChanges { percentage: None, state: Some(2), time_to_empty: Some(0), time_to_full: None },
    );
    assert_eq!(b.get("/bat1").unwrap().time, TimeTo::Unknown);
    b.query_battery("/nope", &PropertyChanges { percentage: Some(1), state: None, time_to_empty: None, time_to_full: None });
    assert_eq!(b.get("/nope"), None);
    b.remove("/bat0");
    assert_eq!(b.get("/bat0"), None);
    assert!(b.get("/bat1").is_some());
    b.remove("/bat0");
    assert!(b.get("/bat1").is_some());
}

#[test]
fn block_text() {
    let mut b = BatteryBlock::new();
    b.insert("/bat0", BatteryDevice::from_properties(BatteryType::Battery, 55, 2, 0, 3600).unwrap());
    b.insert("/mouse", BatteryDevice::from_properties(BatteryType::Mouse, 100, 0, 0, 0).unwrap());
    let mut f = String::new();
    b.fmt(&vec!["1.0 hours ".to_owned(), String::new()], &mut f);
    assert_eq!(
        f,
        " \u{f007e} 55% 1.0 hours \u{f0046}  \u{f037d} \u{f0079} 100% "
    );
    let table = b.get("/mouse").unwrap().table_icon();
    assert_eq!(table, "\u{f037d} ");
    assert_eq!(b.get("/bat0").unwrap().table_icon(), "\u{f007e} ");
}

#[test]
fn empty_block_text_pops_previous_char() {
    let b = BatteryBlock::new();
    let mut f = String::from("ab");
    b.fmt(&Vec::new(), &mut f);
    assert_eq!(f, "a");
}

#[test]
fn removing_a_new_device_undoes_showing_it() {
    let mut b = BatteryBlock::new();
    let d = BatteryDevice::from_properties(BatteryType::Battery, 40, 2, 0, 100).unwrap();
    let m = BatteryDevice::from_properties(BatteryType::Mouse, 90, 1, 60, 0).unwrap();
    b.insert("/a", d);
    b.insert("/b", m);
    assert_eq!(b.len(), 2);
    b.remove("/b");
    assert_eq!(b.len(), 1);
    assert_eq!(b.get("/a"), Some(d));
    assert_eq!(b.get("/b"), None);
}
