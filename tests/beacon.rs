use domo_wot_bridge::beacon::{contact_record, stored_contact_status, thermometer_record, valve_state_record};
use domo_wot_bridge::fields::Field;
use domo_wot_bridge::mac::mac_with_colons;

fn s(x: &str) -> String {
    x.to_string()
}

fn get<'a>(v: &'a Vec<(String, Field)>, k: &str) -> Option<&'a Field> {
    v.iter().rev().find(|(n, _)| n == k).map(|(_, f)| f)
}

fn stored() -> Vec<(String, Field)> {
    vec![
        (s("mac_address"), Field::Text(s("AA:BB:CC:DD:EE:FF"))),
        (s("id"), Field::Num(3000)),
        (s("name"), Field::Text(s("radiator"))),
        (s("area_name"), Field::Text(s("bedroom"))),
        (s("token"), Field::Text(s("secret-token"))),
        (s("status"), Field::Num(1000)),
    ]
}

#[test]
fn mac_gets_colons() {
    assert_eq!(mac_with_colons(&s("aabbccddeeff")), Some(s("aa:bb:cc:dd:ee:ff")));
    assert_eq!(mac_with_colons(&s("aabbccddeeff01")), Some(s("aa:bb:cc:dd:ee:ff")));
    assert_eq!(mac_with_colons(&s("aabbccddee")), None);
    assert_eq!(mac_with_colons(&s("aabbccddeéff")), None);
}

#[test]
fn valve_state_record_fields() {
    let v = valve_state_record(true, &stored(), Field::Num(42)).unwrap();
    assert!(matches!(get(&v, "status"), Some(Field::Bool(true))));
    assert!(matches!(get(&v, "name"), Some(Field::Text(x)) if x == "radiator"));
    assert!(matches!(get(&v, "id"), Some(Field::Num(3000))));
    assert!(matches!(get(&v, "last_update_timestamp"), Some(Field::Num(42))));
    assert!(get(&v, "token").is_none());
    assert_eq!(v.len(), 6);
}

#[test]
fn contact_record_fields() {
    let v = contact_record(1, &stored(), Field::Num(7)).unwrap();
    assert!(matches!(get(&v, "status"), Some(Field::Num(1000))));
    assert!(matches!(get(&v, "token"), Some(Field::Text(x)) if x == "secret-token"));
    assert!(get(&v, "name").is_none());
    let v = contact_record(0, &stored(), Field::Num(7)).unwrap();
    assert!(matches!(get(&v, "status"), Some(Field::Num(0))));
    let missing: Vec<(String, Field)> = stored().into_iter().filter(|(k, _)| k != "token").collect();
    assert!(contact_record(1, &missing, Field::Num(7)).is_none());
}

#[test]
fn thermometer_record_fields() {
    let v = thermometer_record(Field::Num(21500), Field::Num(40000), Field::Num(90000), &stored(), Field::Num(1)).unwrap();
    assert!(matches!(get(&v, "temperature"), Some(Field::Num(21500))));
    assert!(matches!(get(&v, "humidity"), Some(Field::Num(40000))));
    assert!(matches!(get(&v, "battery"), Some(Field::Num(90000))));
    assert!(matches!(get(&v, "area_name"), Some(Field::Text(x)) if x == "bedroom"));
    assert_eq!(v.len(), 9);
    let missing: Vec<(String, Field)> = stored().into_iter().filter(|(k, _)| k != "name").collect();
    assert!(thermometer_record(Field::Null, Field::Null, Field::Null, &missing, Field::Num(1)).is_none());
}

#[test]
fn stored_contact_status_values() {
    assert_eq!(stored_contact_status(&stored()), Some(1));
    assert_eq!(stored_contact_status(&vec![(s("status"), Field::Num(0))]), Some(0));
    assert_eq!(stored_contact_status(&vec![(s("status"), Field::Num(500))]), None);
    assert_eq!(stored_contact_status(&vec![]), None);
}

#[test]
fn contact_write_only_on_change() {
    // Stored status 1 (closed); a closed reading writes nothing.
    assert!(domo_wot_bridge::beacon::contact_write(&stored(), false, Field::Num(9)).is_none());
    // An open reading writes one record with status 0.
    let v = domo_wot_bridge::beacon::contact_write(&stored(), true, Field::Num(9)).unwrap();
    assert!(matches!(get(&v, "status"), Some(Field::Num(0))));
    assert!(matches!(get(&v, "last_update_timestamp"), Some(Field::Num(9))));
}
