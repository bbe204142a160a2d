use batmon::battery::{Battery, BatteryState};
use batmon::cli::{Command, DaemonArgs, query_line, DEFAULT_POLL_INTERVAL};
use batmon::daemon::{tick_notifications, Urgency};
use batmon::device::{Device, Telemetry};
use batmon::error::BatteryError;
use batmon::poll::AttrRead;
use batmon::status::ChargingStatus;

fn content(s: &str) -> AttrRead {
    AttrRead::Content(s.to_string())
}

fn state(level: u8, capacity: u64, charge: u64, current: u64, status: ChargingStatus) -> BatteryState {
    BatteryState { level, capacity, charge, current, cycles: 12, status }
}

#[test]
fn remaining_while_discharging() {
    let st = state(50, 3600, 1800, 900, ChargingStatus::Discharging);
    assert_eq!(st.remaining().unwrap(), "02:00:00");
}

#[test]
fn remaining_while_full_is_the_literal() {
    let st = state(100, 0, 0, 0, ChargingStatus::Full);
    assert_eq!(st.remaining().unwrap(), "Full");
    let st = state(100, 3600, 1800, 900, ChargingStatus::Full);
    assert_eq!(st.remaining().unwrap(), "Full");
}

#[test]
fn remaining_while_charging_counts_the_deficit() {
    let st = state(50, 3600, 1800, 900, ChargingStatus::Charging);
    assert_eq!(st.remaining().unwrap(), "02:00:00");
    let st = state(50, 3600, 2700, 900, ChargingStatus::Charging);
    assert_eq!(st.remaining().unwrap(), "01:00:00");
}

#[test]
fn remaining_with_charge_above_capacity_is_zero() {
    let st = state(50, 1000, 2000, 900, ChargingStatus::Charging);
    assert_eq!(st.remaining().unwrap(), "00:00:00");
}

#[test]
fn remaining_needs_a_current_draw() {
    let st = state(50, 3600, 1800, 0, ChargingStatus::Discharging);
    assert_eq!(st.remaining(), Err(BatteryError::InsufficientData));
    let st = state(50, 3600, 1800, 0, ChargingStatus::Charging);
    assert_eq!(st.remaining(), Err(BatteryError::InsufficientData));
}

#[test]
fn remaining_formats_fields_and_unbounded_hours() {
    let st = state(50, 0, 3723, 3600, ChargingStatus::Discharging);
    assert_eq!(st.remaining().unwrap(), "01:02:03");
    let st = state(50, 0, 3600000, 1, ChargingStatus::Discharging);
    assert_eq!(st.remaining().unwrap(), "3600000:00:00");
}

#[test]
fn remaining_labelled_appends_the_direction() {
    let st = state(50, 3600, 1800, 900, ChargingStatus::Discharging);
    assert_eq!(st.remaining_labelled().unwrap(), "02:00:00 remaining");
    let st = state(50, 3600, 1800, 900, ChargingStatus::Charging);
    assert_eq!(st.remaining_labelled().unwrap(), "02:00:00 until full");
    let st = state(100, 3600, 1800, 900, ChargingStatus::Full);
    assert_eq!(st.remaining_labelled().unwrap(), "Full");
}

fn battery() -> Battery {
    let d = Device {
        name: "BAT0".to_string(),
        is_dir: true,
        type_attr: content("Battery\n"),
        scope: AttrRead::Missing,
        telemetry: Telemetry {
            level: content("57\n"),
            capacity: content("3600\n"),
            charge: content("1800\n"),
            current: content("900\n"),
            cycles: content("12\n"),
            status: content("Discharging\n"),
        },
    };
    Battery::new(&d).unwrap()
}

#[test]
fn summary_renders_one_line() {
    let b = battery();
    assert_eq!(b.summary().unwrap(), "BAT0 (12) @ 57%, Discharging, 02:00:00 remaining");
}

#[test]
fn battery_remaining_uses_the_snapshot() {
    let b = battery();
    assert_eq!(b.remaining().unwrap(), "02:00:00");
    assert_eq!(b.remaining_labelled().unwrap(), "02:00:00 remaining");
}

#[test]
fn query_lines_print_raw_values() {
    let b = battery();
    let st = b.state();
    let name = b.name.as_str();
    assert_eq!(query_line(&Command::Capacity, name, &st).unwrap(), "3600");
    assert_eq!(query_line(&Command::Charge, name, &st).unwrap(), "1800");
    assert_eq!(query_line(&Command::Current, name, &st).unwrap(), "900");
    assert_eq!(query_line(&Command::Cycles, name, &st).unwrap(), "12");
    assert_eq!(query_line(&Command::Level, name, &st).unwrap(), "57");
    assert_eq!(query_line(&Command::Name, name, &st).unwrap(), "BAT0");
    assert_eq!(query_line(&Command::Status, name, &st).unwrap(), "Discharging");
    assert_eq!(query_line(&Command::Time, name, &st).unwrap(), "02:00:00");
    assert_eq!(
        query_line(&Command::Summary, name, &st).unwrap(),
        "BAT0 (12) @ 57%, Discharging, 02:00:00 remaining"
    );
}

#[test]
fn query_time_surfaces_missing_data() {
    let st = state(50, 3600, 1800, 0, ChargingStatus::Discharging);
    assert_eq!(query_line(&Command::Time, "BAT0", &st), Err(BatteryError::InsufficientData));
}

#[test]
fn daemon_args_carry_the_interval() {
    let args = DaemonArgs { interval: DEFAULT_POLL_INTERVAL };
    assert_eq!(args.interval, 15);
}

#[test]
fn tick_notifies_charging_edge_once() {
    let old = state(40, 3600, 1500, 900, ChargingStatus::Discharging);
    let new = state(41, 3600, 1530, 900, ChargingStatus::Charging);
    let notifs = tick_notifications("BAT0", &old, &new).unwrap();
    assert_eq!(notifs.len(), 1);
    assert_eq!(notifs[0].title, "Charging");
    assert_eq!(notifs[0].urgency, Urgency::Low);
    assert_eq!(notifs[0].body, "BAT0 is charging\n02:18:00 until full");
    assert_eq!(notifs.iter().filter(|n| n.title == "Discharging").count(), 0);
}

#[test]
fn tick_notifies_discharging_edge() {
    let old = state(60, 3600, 2200, 900, ChargingStatus::Charging);
    let new = state(60, 3600, 2160, 720, ChargingStatus::Discharging);
    let notifs = tick_notifications("BAT0", &old, &new).unwrap();
    assert_eq!(notifs.len(), 1);
    assert_eq!(notifs[0].title, "Discharging");
    assert_eq!(notifs[0].urgency, Urgency::Normal);
    assert_eq!(notifs[0].body, "BAT0 is discharging\n03:00:00 remaining");
}

#[test]
fn tick_notifies_full_edge_without_an_estimate() {
    let old = state(99, 3600, 3560, 200, ChargingStatus::Charging);
    let new = state(100, 3600, 3600, 0, ChargingStatus::Full);
    let notifs = tick_notifications("BAT0", &old, &new).unwrap();
    assert_eq!(notifs.len(), 1);
    assert_eq!(notifs[0].title, "Battery full");
    assert_eq!(notifs[0].urgency, Urgency::Low);
    assert_eq!(notifs[0].body, "BAT0 @ 100%");
}

#[test]
fn tick_is_quiet_without_changes() {
    let old = state(60, 3600, 2000, 900, ChargingStatus::Discharging);
    let new = state(60, 3600, 1990, 900, ChargingStatus::Discharging);
    let notifs = tick_notifications("BAT0", &old, &new).unwrap();
    assert!(notifs.is_empty());
}

#[test]
fn tick_level_drop_fires_only_the_highest_threshold() {
    let old = state(60, 3600, 2100, 900, ChargingStatus::Discharging);
    let new = state(40, 3600, 1440, 900, ChargingStatus::Discharging);
    let notifs = tick_notifications("BAT0", &old, &new).unwrap();
    assert_eq!(notifs.len(), 1);
    assert_eq!(notifs[0].title, "Battery at half");
    assert_eq!(notifs[0].urgency, Urgency::Low);
    assert_eq!(notifs[0].body, "BAT0 @ 40%\n01:36:00 remaining");
}

#[test]
fn tick_lower_thresholds_have_their_own_labels() {
    let old = state(30, 3600, 1080, 900, ChargingStatus::Discharging);
    let new = state(25, 3600, 900, 900, ChargingStatus::Discharging);
    let notifs = tick_notifications("BAT0", &old, &new).unwrap();
    assert_eq!(notifs.len(), 1);
    assert_eq!(notifs[0].title, "Battery low");
    assert_eq!(notifs[0].urgency, Urgency::Normal);

    let old = state(16, 3600, 576, 900, ChargingStatus::Discharging);
    let new = state(10, 3600, 360, 900, ChargingStatus::Discharging);
    let notifs = tick_notifications("BAT0", &old, &new).unwrap();
    assert_eq!(notifs.len(), 1);
    assert_eq!(notifs[0].title, "Battery critical");
    assert_eq!(notifs[0].urgency, Urgency::Critical);
}

#[test]
fn tick_deep_drop_is_reported_at_the_highest_breached_threshold() {
    let old = state(60, 3600, 2100, 900, ChargingStatus::Discharging);
    let new = state(10, 3600, 360, 900, ChargingStatus::Discharging);
    let notifs = tick_notifications("BAT0", &old, &new).unwrap();
    assert_eq!(notifs.len(), 1);
    assert_eq!(notifs[0].title, "Battery at half");
}

#[test]
fn tick_edge_and_threshold_in_dispatch_order() {
    let old = state(60, 3600, 2100, 900, ChargingStatus::Charging);
    let new = state(40, 3600, 1440, 900, ChargingStatus::Discharging);
    let notifs = tick_notifications("BAT0", &old, &new).unwrap();
    assert_eq!(notifs.len(), 2);
    assert_eq!(notifs[0].title, "Discharging");
    assert_eq!(notifs[1].title, "Battery at half");
}

#[test]
fn tick_without_current_reports_missing_data() {
    let old = state(60, 3600, 2100, 900, ChargingStatus::Discharging);
    let new = state(40, 3600, 1440, 0, ChargingStatus::Discharging);
    assert_eq!(
        tick_notifications("BAT0", &old, &new).unwrap_err(),
        BatteryError::InsufficientData
    );
}
