use config_bus::bus::CONFIG_REQUEST_TOPIC;
use config_bus::clock::{current_timestamp, timestamp_from_millis};
use config_bus::{BusError, ConfigBus, ConfigMessage};

fn object(key: &str, value: &str) -> serde_json::Value {
    let mut m = serde_json::Map::new();
    m.insert(key.to_string(), serde_json::Value::String(value.to_string()));
    serde_json::Value::Object(m)
}

fn empty_object() -> serde_json::Value {
    serde_json::Value::Object(serde_json::Map::new())
}

#[test]
fn broadcast_then_get_latest_theme() {
    let mut bus = ConfigBus::new();
    let sent = bus
        .broadcast_now("theme".to_string(), object("mode", "dark"), "win-A".to_string())
        .unwrap();
    let got = bus.get_latest(&"theme".to_string()).unwrap();
    assert_eq!(got.event_type, "theme");
    assert_eq!(got.data, object("mode", "dark"));
    assert_eq!(got.source_window, "win-A");
    assert!(got.timestamp > 0);
    assert_eq!(got.timestamp, sent.timestamp);
    assert_eq!(sent.data, got.data);
    assert_eq!(sent.source_window, got.source_window);
}

#[test]
fn unknown_topic_is_absent() {
    let bus = ConfigBus::new();
    assert!(bus.get_latest(&"unknown_topic".to_string()).is_none());
}

#[test]
fn later_broadcast_replaces_earlier() {
    let mut bus = ConfigBus::new();
    bus.broadcast("theme".to_string(), object("mode", "light"), "A".to_string(), 100);
    bus.broadcast("theme".to_string(), object("mode", "dark"), "B".to_string(), 200);
    let got = bus.get_latest(&"theme".to_string()).unwrap();
    assert_eq!(got.data, object("mode", "dark"));
    assert_eq!(got.source_window, "B");
    assert_eq!(got.timestamp, 200);
}

#[test]
fn request_sync_sends_empty_payload_and_stores_nothing() {
    let bus = ConfigBus::new();
    let msg = bus.request_sync_now("win-C".to_string()).unwrap();
    assert_eq!(msg.event_type, "config_request");
    assert_eq!(msg.event_type, CONFIG_REQUEST_TOPIC);
    assert_eq!(msg.source_window, "win-C");
    assert_eq!(msg.data, empty_object());
    assert!(bus.get_latest(&"config_request".to_string()).is_none());
}

#[test]
fn never_broadcast_topic_stays_absent_among_others() {
    let mut bus = ConfigBus::new();
    bus.broadcast("theme".to_string(), object("mode", "dark"), "A".to_string(), 1);
    bus.broadcast("lang".to_string(), object("code", "en"), "B".to_string(), 2);
    assert!(bus.get_latest(&"font".to_string()).is_none());
    assert!(bus.get_latest(&"".to_string()).is_none());
}

#[test]
fn last_of_a_sequence_wins_with_latest_timestamp() {
    let mut bus = ConfigBus::new();
    let values = ["a", "b", "c", "d"];
    let mut last = None;
    for (i, v) in values.iter().enumerate() {
        last = Some(bus.broadcast("size".to_string(), object("v", v), format!("w{}", i), 10 * i as u64));
    }
    let last = last.unwrap();
    let got = bus.get_latest(&"size".to_string()).unwrap();
    assert_eq!(got.data, object("v", "d"));
    assert_eq!(got.source_window, "w3");
    assert_eq!(got.timestamp, 30);
    assert_eq!(got.data, last.data);
}

#[test]
fn broadcast_on_one_topic_leaves_others() {
    let mut bus = ConfigBus::new();
    bus.broadcast("lang".to_string(), object("code", "en"), "A".to_string(), 1);
    bus.broadcast("theme".to_string(), object("mode", "dark"), "B".to_string(), 2);
    bus.broadcast("theme".to_string(), object("mode", "light"), "C".to_string(), 3);
    let lang = bus.get_latest(&"lang".to_string()).unwrap();
    assert_eq!(lang.data, object("code", "en"));
    assert_eq!(lang.source_window, "A");
    assert_eq!(lang.timestamp, 1);
}

#[test]
fn request_sync_leaves_table_unchanged() {
    let mut bus = ConfigBus::new();
    bus.broadcast("theme".to_string(), object("mode", "dark"), "A".to_string(), 1);
    let before = bus.get_latest(&"theme".to_string()).unwrap();
    let msg = bus.request_sync("win-C".to_string(), 42);
    assert_eq!(msg.timestamp, 42);
    let after = bus.get_latest(&"theme".to_string()).unwrap();
    assert_eq!(before.data, after.data);
    assert_eq!(before.source_window, after.source_window);
    assert_eq!(before.timestamp, after.timestamp);
    assert!(bus.get_latest(&"config_request".to_string()).is_none());
}

#[test]
fn serialised_broadcasts_keep_one_whole_message() {
    let mut bus = ConfigBus::new();
    let mut sent: Vec<ConfigMessage> = Vec::new();
    for i in 0..5u64 {
        sent.push(bus.broadcast("theme".to_string(), object("n", &i.to_string()), format!("w{}", i), 7));
    }
    assert_eq!(sent.len(), 5);
    let got = bus.get_latest(&"theme".to_string()).unwrap();
    assert!(sent
        .iter()
        .any(|m| m.data == got.data && m.source_window == got.source_window));
}

#[test]
fn cloned_message_keeps_payload() {
    let m = ConfigMessage::new("theme".to_string(), object("mode", "dark"), "A".to_string(), 3);
    let c = m.clone();
    assert_eq!(c.data, object("mode", "dark"));
    assert_eq!(c.event_type, "theme");
    assert_eq!(c.source_window, "A");
    assert_eq!(c.timestamp, 3);
}

#[test]
fn millis_beyond_u64_are_a_clock_error() {
    assert_eq!(timestamp_from_millis(u128::MAX), Err(BusError::ClockError));
    assert_eq!(timestamp_from_millis(u64::MAX as u128 + 1), Err(BusError::ClockError));
    assert_eq!(timestamp_from_millis(u64::MAX as u128), Ok(u64::MAX));
    assert_eq!(timestamp_from_millis(1_700_000_000_000), Ok(1_700_000_000_000));
}

#[test]
fn wall_clock_is_after_2020() {
    let t = current_timestamp().unwrap();
    assert!(t > 1_577_836_800_000);
}
