use upower::controller::{fetch_device, handle_event};
use upower::display::{
    decimal_string, details, icon_request, popup_text, primary_record, render_label,
    seconds_to_string, time_remaining, widget_texts, PRIMARY_BATTERY,
};
use upower::fetch::DEVICE_INTERFACE;
use upower::store::Store;
use upower::wire::{Property, WireValue};
use upower::module::{default_format, default_icon_size, UpowerModule};
use upower::properties::UpowerProperties;
use upower::state::BatteryState;

fn record(state: BatteryState, time_to_full: i64, time_to_empty: i64) -> UpowerProperties {
    UpowerProperties::new(57.0f64.to_bits(), "battery-good".to_string(), state, time_to_full, time_to_empty)
}

#[test]
fn decimal_string_writes_numbers() {
    assert_eq!(decimal_string(0), "0");
    assert_eq!(decimal_string(7), "7");
    assert_eq!(decimal_string(10), "10");
    assert_eq!(decimal_string(1234567890), "1234567890");
    assert_eq!(decimal_string(u64::MAX), "18446744073709551615");
}

#[test]
fn seconds_to_string_leaves_out_zero_parts() {
    assert_eq!(seconds_to_string(0), "");
    assert_eq!(seconds_to_string(59), "");
    assert_eq!(seconds_to_string(60), "1m");
    assert_eq!(seconds_to_string(3599), "59m");
    assert_eq!(seconds_to_string(3600), "1h");
    assert_eq!(seconds_to_string(7200), "2h");
    assert_eq!(seconds_to_string(7260), "2h 1m");
    assert_eq!(seconds_to_string(86400), "1d");
    assert_eq!(seconds_to_string(86400 + 300), "1d 5m");
    assert_eq!(seconds_to_string(86400 + 3600), "1d 1h");
    assert_eq!(seconds_to_string(93784), "1d 2h 3m");
    assert_eq!(seconds_to_string(10 * 86400 + 23 * 3600 + 59 * 60 + 59), "10d 23h 59m");
}

#[test]
fn seconds_to_string_of_negative_and_extreme_spans() {
    assert_eq!(seconds_to_string(-1), "");
    assert_eq!(seconds_to_string(-90000), "");
    assert_eq!(seconds_to_string(i64::MIN), "");
    assert_eq!(seconds_to_string(i64::MAX), "106751991167300d 15h 30m");
}

#[test]
fn time_remaining_follows_the_state() {
    assert_eq!(time_remaining(&record(BatteryState::Charging, 3600, 7200)), "1h");
    assert_eq!(time_remaining(&record(BatteryState::PendingCharge, 3600, 7200)), "1h");
    assert_eq!(time_remaining(&record(BatteryState::Discharging, 3600, 7200)), "2h");
    assert_eq!(time_remaining(&record(BatteryState::FullyCharged, 3600, 7200)), "2h");
    assert_eq!(time_remaining(&record(BatteryState::Unknown, 0, 0)), "");
}

#[test]
fn details_say_when_full_or_empty() {
    assert_eq!(details(&record(BatteryState::Charging, 5400, 0)), "Full in 1h 30m");
    assert_eq!(details(&record(BatteryState::PendingCharge, 60, 0)), "Full in 1m");
    assert_eq!(details(&record(BatteryState::Charging, 0, 7200)), "");
    assert_eq!(details(&record(BatteryState::Discharging, 0, 7200)), "Empty in 2h");
    assert_eq!(details(&record(BatteryState::PendingDischarge, 0, 90000)), "Empty in 1d 1h");
    assert_eq!(details(&record(BatteryState::Discharging, 7200, 0)), "");
    assert_eq!(details(&record(BatteryState::Charging, 30, 0)), "Full in ");
    assert_eq!(details(&record(BatteryState::FullyCharged, 60, 60)), "");
    assert_eq!(details(&record(BatteryState::Empty, 60, 60)), "");
    assert_eq!(details(&record(BatteryState::Unknown, 60, 60)), "");
}

#[test]
fn render_label_fills_the_tokens() {
    let properties = record(BatteryState::Discharging, 0, 7200);
    assert_eq!(render_label("{percentage}%", "57", &properties), "57%");
    assert_eq!(
        render_label("{percentage}% {state} ({time_remaining})", "57", &properties),
        "57% Discharging (2h)"
    );
    assert_eq!(render_label("{state} {state}", "57", &properties), "Discharging Discharging");
    assert_eq!(render_label("no tokens", "57", &properties), "no tokens");
    assert_eq!(render_label("", "57", &properties), "");
}

#[test]
fn module_defaults() {
    assert_eq!(default_format(), "{percentage}%");
    assert_eq!(default_icon_size(), 24);
    let module = UpowerModule::default();
    assert_eq!(module.format, "{percentage}%");
    assert_eq!(module.icon_size, 24);
    assert_eq!(module.label("80", &record(BatteryState::Charging, 600, 0)), "80%");
}

#[test]
fn render_label_replaces_leftmost_matches_and_keeps_the_rest() {
    let properties = record(BatteryState::Charging, 3600, 0);
    assert_eq!(render_label("{{state}}", "57", &properties), "{Charging}");
    assert_eq!(render_label("{state}{state}", "57", &properties), "ChargingCharging");
    assert_eq!(render_label("{state", "57", &properties), "{state");
    assert_eq!(render_label("state}", "57", &properties), "state}");
    assert_eq!(
        render_label("{percentage}{percentage}%{time_remaining}", "5", &properties),
        "55%1h"
    );
    // A token that a replacement brings in is filled by the later steps.
    assert_eq!(render_label("{percentage}", "{state}", &properties), "Charging");
    // The other way round it stays: the charge level is filled first.
    assert_eq!(render_label("{per{state}centage}", "57", &properties), "{perChargingcentage}");
    assert_eq!(render_label("é{state}é", "57", &properties), "éChargingé");
}

#[test]
fn default_label_of_a_charge_level() {
    let properties = record(BatteryState::Charging, 0, 7200);
    assert_eq!(render_label("{percentage}%", "57", &properties), "57%");
}

#[test]
fn icon_request_puts_the_prefix_before_the_name() {
    assert_eq!(icon_request(&record(BatteryState::Charging, 0, 0)), "icon:battery-good");
    let bare = UpowerProperties::new(0, String::new(), BatteryState::Unknown, 0, 0);
    assert_eq!(icon_request(&bare), "icon:");
}

fn store_with(identity: &str) -> Store {
    let mut store = Store::new();
    store.insert(identity.to_string(), record(BatteryState::Discharging, 0, 7200));
    store
}

#[test]
fn widget_and_popup_show_the_primary_battery() {
    assert_eq!(PRIMARY_BATTERY, "BAT0");
    let store = store_with("BAT0");
    assert_eq!(primary_record(&store).unwrap().time_to_empty(), 7200);
    assert_eq!(popup_text(&store).unwrap(), "Empty in 2h");
    let (label, icon) = widget_texts("{percentage}% {state}", "57", &store).unwrap();
    assert_eq!(label, "57% Discharging");
    assert_eq!(icon, "icon:battery-good");
}

#[test]
fn widget_and_popup_show_nothing_without_the_primary_battery() {
    let empty = Store::new();
    assert!(primary_record(&empty).is_none());
    assert!(popup_text(&empty).is_none());
    assert!(widget_texts("{percentage}%", "57", &empty).is_none());
    let other = store_with("BAT1");
    assert!(primary_record(&other).is_none());
    assert!(popup_text(&other).is_none());
    assert!(widget_texts("{percentage}%", "57", &other).is_none());
}

#[test]
fn widget_follows_the_published_snapshots() {
    let mut store = Store::new();
    let read = vec![
        Property { name: "Type".to_string(), value: WireValue::Uint32(2) },
        Property { name: "NativePath".to_string(), value: WireValue::Text("BAT0".to_string()) },
        Property { name: "Percentage".to_string(), value: WireValue::Double(57.0f64.to_bits()) },
        Property { name: "IconName".to_string(), value: WireValue::Text("battery-good".to_string()) },
        Property { name: "State".to_string(), value: WireValue::Uint32(1) },
        Property { name: "TimeToFull".to_string(), value: WireValue::Int64(3600) },
        Property { name: "TimeToEmpty".to_string(), value: WireValue::Int64(0) },
    ];
    let first = fetch_device(&mut store, &read).unwrap().unwrap();
    let (label, icon) = widget_texts("{state} {time_remaining}", "57", &first).unwrap();
    assert_eq!(label, "Charging 1h");
    assert_eq!(icon, "icon:battery-good");
    assert_eq!(popup_text(&first).unwrap(), "Full in 1h");

    let changes = vec![
        Property { name: "State".to_string(), value: WireValue::Uint32(2) },
        Property { name: "TimeToEmpty".to_string(), value: WireValue::Int64(7200) },
        Property { name: "IconName".to_string(), value: WireValue::Text("battery-low".to_string()) },
    ];
    let second = handle_event(&mut store, "BAT0", DEVICE_INTERFACE, &changes).unwrap();
    let (label, icon) = widget_texts("{state} {time_remaining}", "57", &second).unwrap();
    assert_eq!(label, "Discharging 2h");
    assert_eq!(icon, "icon:battery-low");
    assert_eq!(popup_text(&second).unwrap(), "Empty in 2h");
}
