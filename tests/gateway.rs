use domo_wot_bridge::codec::{beacon_hex_payload, contact_frame};
use domo_wot_bridge::command::{ping_command, CommandType};
use domo_wot_bridge::fields::Field;
use domo_wot_bridge::gateway::{
    actuator_command, beacon_kind, contact_update, valve_beacon_state, volatile_kind, BeaconKind,
    VolatileKind,
};
use domo_wot_bridge::manager::{check_wifi, relay_status, DHTManager, DeviceRecord};
use domo_wot_bridge::routing::ConnectionRecord;
use domo_wot_bridge::transform::Telemetry;

fn s(x: &str) -> String {
    x.to_string()
}

fn get<'a>(v: &'a Vec<(String, Field)>, k: &str) -> Option<&'a Field> {
    v.iter().rev().find(|(n, _)| n == k).map(|(_, f)| f)
}

#[test]
fn connection_record_drives_light_status() {
    let mut m = DHTManager::new();
    m.build_actuators_index(&vec![ConnectionRecord {
        topic_uuid: s("L1"),
        source_topic_name: Some(s("domo_light")),
        target_topic_name: Some(s("shelly_1")),
        target_topic_uuid: Some(s("U1")),
        target_channel_number: Some(1),
    }]);
    let t = Telemetry {
        fields: vec![(s("output1"), Field::Bool(true))],
        updated_properties: vec![s("output1")],
        power_data: vec![],
        rgbw: None,
    };
    let edges = m.connections(&s("shelly_1"), &s("U1"));
    assert_eq!(edges.len(), 1);
    let stored = vec![Some(vec![(s("status"), Field::Bool(false)), (s("name"), Field::Text(s("hall")))])];
    let writes = m.update_actuator_connections(&s("shelly_1"), &s("U1"), &t, &stored);
    assert_eq!(writes.len(), 1);
    assert_eq!(writes[0].topic_name, "domo_light");
    assert_eq!(writes[0].topic_uuid, "L1");
    assert!(matches!(get(&writes[0].value, "status"), Some(Field::Bool(true))));
    assert!(matches!(get(&writes[0].value, "name"), Some(Field::Text(x)) if x == "hall"));
}

#[test]
fn missing_logical_topic_is_skipped() {
    let mut m = DHTManager::new();
    m.build_actuators_index(&vec![ConnectionRecord {
        topic_uuid: s("L1"),
        source_topic_name: Some(s("domo_pir_sensor")),
        target_topic_name: Some(s("shelly_1")),
        target_topic_uuid: Some(s("U1")),
        target_channel_number: Some(1),
    }]);
    let t = Telemetry { fields: vec![], updated_properties: vec![], power_data: vec![], rgbw: None };
    assert!(m.update_actuator_connections(&s("shelly_1"), &s("U1"), &t, &vec![None]).is_empty());
    // No input change: nothing to write either.
    assert!(m.update_actuator_connections(&s("shelly_1"), &s("U1"), &t, &vec![Some(vec![])]).is_empty());
}

#[test]
fn contact_update_suppresses_same_status() {
    assert_eq!(contact_update(Some(1), false), None);
    assert_eq!(contact_update(Some(0), true), None);
    assert_eq!(contact_update(Some(0), false), Some(1));
    assert_eq!(contact_update(Some(1), true), Some(0));
    assert_eq!(contact_update(None, true), Some(0));
}

#[test]
fn contact_change_cascades_once() {
    let mut m = DHTManager::new();
    m.build_actuators_index(&vec![ConnectionRecord {
        topic_uuid: s("W1"),
        source_topic_name: Some(s("domo_window_sensor")),
        target_topic_name: Some(s("domo_ble_contact")),
        target_topic_uuid: Some(s("C1")),
        target_channel_number: Some(1),
    }]);
    let status = contact_update(Some(0), false).unwrap();
    let t = Telemetry {
        fields: vec![(s("status"), Field::Num(status as i64 * 1000))],
        updated_properties: vec![],
        power_data: vec![],
        rgbw: None,
    };
    let writes = m.update_actuator_connections(&s("domo_ble_contact"), &s("C1"), &t, &vec![Some(vec![])]);
    assert_eq!(writes.len(), 1);
    assert!(matches!(get(&writes[0].value, "status"), Some(Field::Num(1000))));
}

#[test]
fn beacon_payload_to_hex() {
    assert_eq!(beacon_hex_payload(&s("AQL/")), Some(s("0102ff")));
    assert_eq!(beacon_hex_payload(&s("")), Some(s("")));
    assert_eq!(beacon_hex_payload(&s("@@@")), None);
}

#[test]
fn contact_frame_appends_rssi_byte() {
    let bytes: Vec<u8> = (0u8..29).collect();
    let payload = base64::encode(&bytes);
    let frame = contact_frame(&s(&payload), -1).unwrap();
    assert_eq!(frame, format!("1d{}ff", hex::encode(&bytes)));
    let frame = contact_frame(&s(&payload), -70).unwrap();
    assert!(frame.ends_with("ba"));
    let short = base64::encode(&bytes[..28]);
    assert_eq!(contact_frame(&s(&short), -1), None);
    assert_eq!(contact_frame(&s("not base64!"), -1), None);
}

#[test]
fn beacon_kinds_and_valve_states() {
    assert_eq!(beacon_kind(&s("domo_ble_thermometer")), BeaconKind::Thermometer);
    assert_eq!(beacon_kind(&s("domo_ble_contact")), BeaconKind::Contact);
    assert_eq!(beacon_kind(&s("domo_ble_valve")), BeaconKind::Valve);
    assert_eq!(beacon_kind(&s("domo_light")), BeaconKind::Other);
    assert_eq!(valve_beacon_state(&s("1")), Some(true));
    assert_eq!(valve_beacon_state(&s("0")), Some(false));
    assert_eq!(valve_beacon_state(&s("AQL/")), None);
}

#[test]
fn volatile_command_kinds() {
    assert_eq!(volatile_kind(&s("shelly_actuator_command"), true), Some(VolatileKind::ActuatorPassthrough));
    assert_eq!(volatile_kind(&s("shelly_actuator_command"), false), None);
    assert_eq!(volatile_kind(&s("radiator_valve_command"), true), Some(VolatileKind::ValvePassthrough));
    assert_eq!(volatile_kind(&s("turn_command"), false), Some(VolatileKind::Turn));
    assert_eq!(volatile_kind(&s("valve_command"), false), Some(VolatileKind::ValveGesture));
    assert_eq!(volatile_kind(&s("dim_command"), true), Some(VolatileKind::Dim));
    assert_eq!(volatile_kind(&s("rgbw_command"), true), Some(VolatileKind::Rgbw));
    assert_eq!(volatile_kind(&s("shutter_command"), true), Some(VolatileKind::Shutter));
    assert_eq!(volatile_kind(&s("other"), true), None);
}

#[test]
fn outbound_commands() {
    let p = ping_command();
    assert_eq!(p.command_type, CommandType::Ping);
    assert_eq!(p.mac_address, "");
    assert_eq!(p.payload, "{}");
    let a = actuator_command(&s("AA"), &s("{\"x\":1}"));
    assert_eq!(a.command_type, CommandType::Actuator);
    assert_eq!(a.mac_address, "AA");
    assert_eq!(a.actuator_mac_address, "");
}

fn relay(name: &str, mac: &str, login: &str, pass: &str) -> DeviceRecord {
    DeviceRecord {
        topic_name: s(name),
        topic_uuid: s("u"),
        value: vec![
            (s("mac_address"), Field::Text(s(mac))),
            (s("user_login"), Field::Text(s(login))),
            (s("user_password"), Field::Text(s(pass))),
        ],
    }
}

#[test]
fn credential_lookup() {
    let m = DHTManager::new();
    let records = vec![
        relay("shelly_1plus", "M1", "alice", "pw1"),
        relay("shelly_2pm_plus", "M2", "bob", "pw2"),
        relay("shelly_1pm_plus", "M3", "bob", "pw2"),
    ];
    assert_eq!(m.get_auth_cred(&records, &s("bob"), &s("pw2")), Some((s("M2"), s("shelly_2pm_plus"))));
    assert_eq!(m.get_auth_cred(&records, &s("bob"), &s("pw1")), None);
    assert_eq!(m.get_auth_cred(&vec![], &s("bob"), &s("pw2")), None);
}

#[test]
fn topic_lookup_by_mac() {
    let m = DHTManager::new();
    let records = vec![relay("shelly_1", "M1", "a", "b"), relay("shelly_25", "M2", "a", "b")];
    assert_eq!(m.get_topic(&records, &s("M2")), Some(1));
    assert_eq!(m.get_actuator_from_mac_address(&records, &s("M1")), Some(0));
    assert_eq!(m.get_topic(&records, &s("M3")), None);
}

#[test]
fn wifi_check_moves_relays_on_other_network() {
    let mut roster = vec![s("A"), s("B"), s("C"), s("D")];
    let ssids = vec![Some(s("home")), Some(s("guest")), None, Some(s("old"))];
    let moved = check_wifi(&mut roster, &ssids, &s("home"));
    assert_eq!(moved, vec![s("B"), s("D")]);
    assert_eq!(roster, vec![s("A"), s("C")]);
}

#[test]
fn relay_status_copies_identity() {
    let stored = vec![
        (s("mac_address"), Field::Text(s("AA:BB"))),
        (s("user_login"), Field::Text(s("u"))),
        (s("user_password"), Field::Text(s("p"))),
        (s("id"), Field::Num(7000)),
        (s("area_name"), Field::Text(s("garden"))),
    ];
    let status = vec![(s("output1"), Field::Bool(true)), (s("mac_address"), Field::Text(s("aabb")))];
    let v = relay_status(&status, &stored, Field::Num(5)).unwrap();
    assert!(matches!(get(&v, "output1"), Some(Field::Bool(true))));
    assert!(matches!(get(&v, "mac_address"), Some(Field::Text(x)) if x == "AA:BB"));
    assert!(matches!(get(&v, "area_name"), Some(Field::Text(x)) if x == "garden"));
    assert!(matches!(get(&v, "id"), Some(Field::Num(7000))));
    assert!(matches!(get(&v, "last_update_timestamp"), Some(Field::Num(5))));
    assert!(get(&v, "note").is_none());
    let without_id: Vec<(String, Field)> = stored.into_iter().filter(|(k, _)| k != "id").collect();
    assert!(relay_status(&status, &without_id, Field::Num(5)).is_none());
}
