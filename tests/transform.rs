use domo_wot_bridge::fields::{apply_patch, Field};
use domo_wot_bridge::transform::{
    channel_name, class_of, decimal, transform, DeviceClass, PowerChannel, Rgbw, Telemetry,
    TransformError,
};

fn s(x: &str) -> String {
    x.to_string()
}

fn report(fields: Vec<(&str, Field)>, changed: Vec<&str>) -> Telemetry {
    Telemetry {
        fields: fields.into_iter().map(|(k, v)| (s(k), v)).collect(),
        updated_properties: changed.into_iter().map(s).collect(),
        power_data: vec![],
        rgbw: None,
    }
}

fn get<'a>(v: &'a Vec<(String, Field)>, k: &str) -> Option<&'a Field> {
    v.iter().rev().find(|(n, _)| n == k).map(|(_, f)| f)
}

fn num(v: &Vec<(String, Field)>, k: &str) -> Option<i64> {
    match get(v, k) {
        Some(Field::Num(x)) => Some(*x),
        _ => None,
    }
}

fn names(v: &Vec<(String, Field)>, k: &str) -> Option<Vec<String>> {
    match get(v, k) {
        Some(Field::Names(x)) => Some(x.clone()),
        _ => None,
    }
}

fn is_bool(f: Option<&Field>, b: bool) -> bool {
    matches!(f, Some(Field::Bool(x)) if *x == b)
}

#[test]
fn decimal_names() {
    assert_eq!(decimal(0), "0");
    assert_eq!(decimal(7), "7");
    assert_eq!(decimal(42), "42");
    assert_eq!(decimal(1000), "1000");
    assert_eq!(decimal(u64::MAX), u64::MAX.to_string());
    assert_eq!(channel_name("output", 2), "output2");
}

#[test]
fn classes_by_name() {
    assert_eq!(class_of(&s("domo_light")), DeviceClass::Light);
    assert_eq!(class_of(&s("domo_light_dimmable")), DeviceClass::DimmableLight);
    assert_eq!(class_of(&s("domo_door_sensor")), DeviceClass::DoorSensor);
    assert_eq!(class_of(&s("domo_thing")), DeviceClass::Other);
}

#[test]
fn switch_energy_accumulates_over_two_reports() {
    let t1 = report(
        vec![("output1", Field::Bool(true)), ("power1", Field::Num(5000)), ("energy1", Field::Num(1500))],
        vec!["power1", "energy1"],
    );
    let t2 = report(
        vec![("output1", Field::Bool(true)), ("power1", Field::Num(6000)), ("energy1", Field::Num(2250))],
        vec!["energy1"],
    );
    let mut stored: Vec<(String, Field)> = vec![(s("name"), Field::Text(s("kitchen")))];
    let p1 = transform(&s("domo_switch"), &s("shelly_25"), 1, &t1, &stored).unwrap();
    apply_patch(&mut stored, &p1);
    assert_eq!(num(&stored, "energy"), Some(1500));
    let p2 = transform(&s("domo_switch"), &s("shelly_25"), 1, &t2, &stored).unwrap();
    apply_patch(&mut stored, &p2);
    assert_eq!(num(&stored, "energy"), Some(3750));
    assert_eq!(num(&stored, "power"), Some(6000));
    assert_eq!(names(&stored, "updated_properties"), Some(vec![s("energy")]));
    assert!(matches!(get(&stored, "name"), Some(Field::Text(x)) if x == "kitchen"));
}

#[test]
fn power_sensor_energy_accumulates() {
    let mut t = report(vec![], vec!["power_data"]);
    t.power_data = vec![
        (s("channel1"), PowerChannel { active_power: Field::Num(1), energy: Field::Num(100) }),
        (s("channel2"), PowerChannel { active_power: Field::Num(2), energy: Field::Num(40) }),
    ];
    let mut stored: Vec<(String, Field)> = vec![(s("energy"), Field::Num(1000))];
    let p = transform(&s("domo_power_energy_sensor"), &s("shelly_em"), 2, &t, &stored).unwrap();
    apply_patch(&mut stored, &p);
    assert_eq!(num(&stored, "energy"), Some(1040));
    assert_eq!(num(&stored, "power"), Some(2));
    let p = transform(&s("domo_power_energy_sensor"), &s("shelly_em"), 2, &t, &stored).unwrap();
    apply_patch(&mut stored, &p);
    assert_eq!(num(&stored, "energy"), Some(1080));
    assert_eq!(names(&stored, "updated_properties"), Some(vec![s("power"), s("energy")]));
}

#[test]
fn power_sensor_needs_power_data_change() {
    let mut t = report(vec![], vec!["output1"]);
    t.power_data = vec![(s("channel1"), PowerChannel { active_power: Field::Num(1), energy: Field::Num(1) })];
    let r = transform(&s("domo_power_energy_sensor"), &s("shelly_em"), 1, &t, &vec![]);
    assert_eq!(r.err(), Some(TransformError::NoRelevantChange));
}

#[test]
fn power_sensor_missing_energy_is_malformed() {
    let t = report(vec![], vec!["power_data"]);
    let r = transform(&s("domo_power_energy_sensor"), &s("shelly_em"), 1, &t, &vec![]);
    assert_eq!(r.err(), Some(TransformError::MalformedRecord));
}

#[test]
fn energy_overflow_is_malformed() {
    let t = report(vec![("output1", Field::Bool(true)), ("energy1", Field::Num(1))], vec![]);
    let stored = vec![(s("energy"), Field::Num(i64::MAX))];
    let r = transform(&s("domo_light"), &s("shelly_25"), 1, &t, &stored);
    assert_eq!(r.err(), Some(TransformError::MalformedRecord));
}

#[test]
fn presence_sensor_requires_input_change() {
    for n in 1..=4u64 {
        let input = format!("input{}", n);
        let t = report(vec![(input.as_str(), Field::Bool(true))], vec!["output1"]);
        for class in ["domo_pir_sensor", "domo_radar_sensor", "domo_button", "domo_bistable_button"] {
            let r = transform(&s(class), &s("shelly_1plus"), n, &t, &vec![]);
            assert_eq!(r.err(), Some(TransformError::NoRelevantChange));
        }
        let t = report(
            vec![(input.as_str(), Field::Bool(true)), ("input9", Field::Bool(false))],
            vec![input.as_str()],
        );
        for class in ["domo_pir_sensor", "domo_radar_sensor", "domo_button", "domo_bistable_button"] {
            let p = transform(&s(class), &s("shelly_1plus"), n, &t, &vec![]).unwrap();
            assert_eq!(p.len(), 1);
            assert!(is_bool(get(&p, "status"), true));
        }
    }
}

#[test]
fn single_relay_light_has_no_energy() {
    let t = report(vec![("output1", Field::Bool(true))], vec!["output1"]);
    let p = transform(&s("domo_light"), &s("shelly_1"), 1, &t, &vec![]).unwrap();
    assert!(is_bool(get(&p, "status"), true));
    assert!(get(&p, "energy").is_none());
    assert!(get(&p, "power").is_none());
    assert_eq!(names(&p, "updated_properties"), Some(vec![]));
}

#[test]
fn dimmer_maps_status_power_energy() {
    let t = report(
        vec![("dimmer_status", Field::Num(50000)), ("power1", Field::Num(12000)), ("energy1", Field::Num(300))],
        vec!["power1", "energy1", "dimmer_status"],
    );
    let stored = vec![(s("energy"), Field::Num(700))];
    let p = transform(&s("domo_light_dimmable"), &s("shelly_dimmer"), 1, &t, &stored).unwrap();
    assert_eq!(num(&p, "status"), Some(50000));
    assert_eq!(num(&p, "power"), Some(12000));
    assert_eq!(num(&p, "energy"), Some(1000));
    assert_eq!(names(&p, "updated_properties"), Some(vec![s("power"), s("energy")]));
}

fn rgbw_report() -> Telemetry {
    let mut t = report(vec![], vec![]);
    t.rgbw = Some(Rgbw { r: Field::Num(1000), g: Field::Num(2000), b: Field::Num(3000), w: Field::Num(4000) });
    t
}

#[test]
fn dimmable_on_rgbw_selects_channel_component() {
    let t = rgbw_report();
    for (n, want) in [(1u64, 1000i64), (2, 2000), (3, 3000), (4, 4000)] {
        let p = transform(&s("domo_light_dimmable"), &s("shelly_rgbw"), n, &t, &vec![]).unwrap();
        assert_eq!(num(&p, "status"), Some(want));
    }
    let p = transform(&s("domo_light_dimmable"), &s("shelly_rgbw"), 5, &t, &vec![]).unwrap();
    assert!(p.is_empty());
    let r = transform(&s("domo_light_dimmable"), &s("shelly_rgbw"), 1, &report(vec![], vec![]), &vec![]);
    assert_eq!(r.err(), Some(TransformError::MalformedRecord));
}

#[test]
fn rgbw_light_sets_all_components() {
    let p = transform(&s("domo_rgbw_light"), &s("shelly_rgbw"), 1, &rgbw_report(), &vec![]).unwrap();
    assert_eq!(num(&p, "r"), Some(1000));
    assert_eq!(num(&p, "g"), Some(2000));
    assert_eq!(num(&p, "b"), Some(3000));
    assert_eq!(num(&p, "w"), Some(4000));
    assert!(get(&p, "energy").is_none());
}

#[test]
fn floor_valve_shutter_and_contact() {
    let t = report(
        vec![
            ("output2", Field::Bool(false)),
            ("shutter_status", Field::Num(3000)),
            ("input2", Field::Bool(true)),
            ("status", Field::Num(1000)),
        ],
        vec![],
    );
    let p = transform(&s("domo_floor_valve"), &s("shelly_25"), 2, &t, &vec![]).unwrap();
    assert!(is_bool(get(&p, "status"), false));
    let p = transform(&s("domo_garage_gate"), &s("shelly_25"), 2, &t, &vec![]).unwrap();
    assert_eq!(num(&p, "shutter_status"), Some(3000));
    let p = transform(&s("domo_window_sensor"), &s("domo_ble_contact"), 2, &t, &vec![]).unwrap();
    assert_eq!(num(&p, "status"), Some(1000));
    let p = transform(&s("domo_door_sensor"), &s("shelly_1plus"), 2, &t, &vec![]).unwrap();
    assert!(is_bool(get(&p, "status"), true));
    let p = transform(&s("domo_thing"), &s("shelly_1plus"), 2, &t, &vec![]).unwrap();
    assert!(p.is_empty());
}
