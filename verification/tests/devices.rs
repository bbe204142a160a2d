use batmon::battery::Battery;
use batmon::device::{Device, Telemetry};
use batmon::error::BatteryError;
use batmon::poll::AttrRead;
use batmon::status::ChargingStatus;

fn content(s: &str) -> AttrRead {
    AttrRead::Content(s.to_string())
}

fn telemetry_all(s: &str) -> Telemetry {
    Telemetry {
        level: content(s),
        capacity: content(s),
        charge: content(s),
        current: content(s),
        cycles: content(s),
        status: content(s),
    }
}

fn telemetry_missing() -> Telemetry {
    Telemetry {
        level: AttrRead::Missing,
        capacity: AttrRead::Missing,
        charge: AttrRead::Missing,
        current: AttrRead::Missing,
        cycles: AttrRead::Missing,
        status: AttrRead::Missing,
    }
}

fn battery_device(name: &str) -> Device {
    Device {
        name: name.to_string(),
        is_dir: true,
        type_attr: content("Battery\n"),
        scope: AttrRead::Missing,
        telemetry: Telemetry {
            level: content("57\n"),
            capacity: content("3600\n"),
            charge: content("1800\n"),
            current: content("900\n"),
            cycles: content("12\n"),
            status: content("Discharging\n"),
        },
    }
}

#[test]
fn classify_accepts_battery_without_scope() {
    assert!(battery_device("BAT0").is_system_battery());
}

#[test]
fn classify_rejects_non_directory() {
    let mut d = battery_device("BAT0");
    d.is_dir = false;
    assert!(!d.is_system_battery());
}

#[test]
fn classify_rejects_missing_type() {
    let mut d = battery_device("BAT0");
    d.type_attr = AttrRead::Missing;
    assert!(!d.is_system_battery());
    d.type_attr = AttrRead::Unreadable;
    assert!(!d.is_system_battery());
}

#[test]
fn classify_rejects_wrong_type_text() {
    let mut d = battery_device("BAT0");
    d.type_attr = content("Mains\n");
    assert!(!d.is_system_battery());
    d.type_attr = content("battery\n");
    assert!(!d.is_system_battery());
}

#[test]
fn classify_checks_scope_when_present() {
    let mut d = battery_device("BAT0");
    d.scope = content(" System \n");
    assert!(d.is_system_battery());
    d.scope = content("Device\n");
    assert!(!d.is_system_battery());
    d.scope = AttrRead::Unreadable;
    assert!(d.is_system_battery());
}

#[test]
fn rating_counts_present_files() {
    let mut d = battery_device("BAT0");
    assert_eq!(d.rating(), 6);
    d.telemetry.cycles = AttrRead::Missing;
    assert_eq!(d.rating(), 5);
    d.telemetry = telemetry_missing();
    assert_eq!(d.rating(), 0);
}

#[test]
fn rating_ignores_content_and_readability() {
    let mut d = battery_device("BAT0");
    d.telemetry = telemetry_all("garbage that parses nowhere");
    assert_eq!(d.rating(), 6);
    d.telemetry.status = AttrRead::Unreadable;
    assert_eq!(d.rating(), 6);
    d.type_attr = AttrRead::Missing;
    assert_eq!(d.rating(), 6);
}

#[test]
fn new_builds_battery_from_probe() {
    let b = Battery::new(&battery_device("BAT0")).unwrap();
    assert_eq!(b.name.as_str(), "BAT0");
    let st = b.state();
    assert_eq!(st.level, 57);
    assert_eq!(st.capacity, 3600);
    assert_eq!(st.charge, 1800);
    assert_eq!(st.current, 900);
    assert_eq!(st.cycles, 12);
    assert_eq!(st.status, ChargingStatus::Discharging);
}

#[test]
fn new_rejects_non_battery() {
    let mut d = battery_device("AC");
    d.type_attr = content("Mains\n");
    assert_eq!(Battery::new(&d).err(), Some(BatteryError::DeviceInvalid));
}

#[test]
fn new_keeps_defaults_for_missing_telemetry() {
    let mut d = battery_device("BAT0");
    d.telemetry = telemetry_missing();
    let st = Battery::new(&d).unwrap().state();
    assert_eq!(st.level, 100);
    assert_eq!(st.capacity, 0);
    assert_eq!(st.charge, 0);
    assert_eq!(st.current, 0);
    assert_eq!(st.cycles, 0);
    assert_eq!(st.status, ChargingStatus::Full);
}

#[test]
fn update_refreshes_each_attribute_independently() {
    let mut b = Battery::new(&battery_device("BAT0")).unwrap();
    let mut reads = telemetry_missing();
    reads.charge = content("1700");
    reads.status = content("Charging");
    reads.level = content("not a level");
    b.update(&reads);
    let st = b.state();
    assert_eq!(st.charge, 1700);
    assert_eq!(st.status, ChargingStatus::Charging);
    assert_eq!(st.level, 57);
    assert_eq!(st.capacity, 3600);
}

#[test]
fn find_prefers_lowest_rating() {
    let mut rich = battery_device("BAT1");
    rich.telemetry.status = content("Charging\n");
    let mut poor = battery_device("BAT0");
    poor.telemetry.cycles = AttrRead::Missing;
    let tree = vec![rich.clone(), poor.clone()];
    let out = Battery::find(None, &tree);
    assert!(out.enumerated);
    let b = out.battery.unwrap();
    assert_eq!(b.name.as_str(), "BAT0");
    assert_eq!(out.cache_write.as_deref(), Some("BAT0"));
}

#[test]
fn find_breaks_rating_ties_by_order() {
    let tree = vec![battery_device("BAT0"), battery_device("BAT1")];
    let out = Battery::find(None, &tree);
    assert_eq!(out.battery.unwrap().name.as_str(), "BAT0");
}

#[test]
fn find_skips_non_batteries() {
    let mut ac = battery_device("AC");
    ac.type_attr = content("Mains\n");
    let tree = vec![ac, battery_device("BAT1")];
    let out = Battery::find(None, &tree);
    assert_eq!(out.battery.unwrap().name.as_str(), "BAT1");
}

#[test]
fn find_reports_absence() {
    let mut ac = battery_device("AC");
    ac.type_attr = content("Mains\n");
    let out = Battery::find(None, &vec![ac]);
    assert!(out.battery.is_none());
    assert!(out.enumerated);
    assert!(out.cache_write.is_none());
}

#[test]
fn find_cache_round_trip_skips_enumeration() {
    let tree = vec![battery_device("BAT0"), battery_device("BAT1")];
    let first = Battery::find(None, &tree);
    let hint = first.cache_write.unwrap();
    let again = Battery::find(Some(hint.as_str()), &tree);
    assert!(!again.enumerated);
    assert!(again.cache_write.is_none());
    assert_eq!(
        again.battery.unwrap().name.as_str(),
        first.battery.unwrap().name.as_str()
    );
}

#[test]
fn find_trims_the_cache_hint() {
    let tree = vec![battery_device("BAT0")];
    let out = Battery::find(Some(" BAT0\n"), &tree);
    assert!(!out.enumerated);
    assert_eq!(out.battery.unwrap().name.as_str(), "BAT0");
}

#[test]
fn find_falls_back_when_hint_is_stale() {
    let tree = vec![battery_device("BAT0")];
    let out = Battery::find(Some("BAT9"), &tree);
    assert!(out.enumerated);
    assert_eq!(out.battery.unwrap().name.as_str(), "BAT0");
    assert_eq!(out.cache_write.as_deref(), Some("BAT0"));
}

#[test]
fn find_falls_back_when_hinted_device_is_no_battery() {
    let mut ac = battery_device("AC");
    ac.type_attr = content("Mains\n");
    let tree = vec![ac, battery_device("BAT0")];
    let out = Battery::find(Some("AC"), &tree);
    assert!(out.enumerated);
    assert_eq!(out.battery.unwrap().name.as_str(), "BAT0");
}
