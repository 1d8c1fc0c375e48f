use vstd::prelude::*;
use vstd::string::StringExecFns;
use crate::gateway::{contact_status, contact_update};
use crate::fields::{field_of, fields_view, get_field, has_name, names_view, push_field, Field, FieldV, FieldsV};

verus! {

/// The fields `keys` of `stored`, in order, as a field list.
pub open spec fn copied(stored: FieldsV, keys: Seq<Seq<char>>) -> FieldsV
    decreases keys.len(),
{
    if keys.len() == 0 {
        Seq::empty()
    } else {
        copied(stored, keys.drop_last()).push((keys.last(), field_of(stored, keys.last())))
    }
}

/// The record to store for a beacon: its `readings`, then the fields `keys`
/// of the device's stored record, then the time of the update. `None` where
/// the stored record lacks one of `keys`.
pub open spec fn beacon_record_spec(readings: FieldsV, stored: FieldsV, keys: Seq<Seq<char>>, timestamp: FieldV) -> Option<FieldsV> {
    if forall|i: int| 0 <= i < keys.len() ==> has_name(stored, #[trigger] keys[i]) {
        Some(readings + copied(stored, keys) + seq![("last_update_timestamp"@, timestamp)])
    } else {
        None
    }
}

fn has_field(fields: &Vec<(String, Field)>, name: &String) -> (r: bool)
    ensures
        r == has_name(fields_view(fields@), name@),
{
    let ghost fv = fields_view(fields@);
    let mut i: usize = 0;
    while i < fields.len()
        invariant
            i <= fields@.len(),
            fv == fields_view(fields@),
            forall|j: int| 0 <= j < i ==> fv[j].0 != name@,
        decreases fields.len() - i,
    {
        if fields[i].0 == *name {
            assert(fv[i as int].0 == name@);
            return true;
        }
        i = i + 1;
    }
    false
}

/// Builds the record that `beacon_record_spec` describes.
pub fn beacon_record(readings: Vec<(String, Field)>, stored: &Vec<(String, Field)>, keys: &Vec<String>, timestamp: Field) -> (r: Option<Vec<(String, Field)>>)
    ensures
        match beacon_record_spec(fields_view(readings@), fields_view(stored@), names_view(keys@), timestamp@) {
            Some(v) => r is Some && fields_view(r->Some_0@) == v,
            None => r is None,
        },
{
    let ghost kv = names_view(keys@);
    let ghost sv = fields_view(stored@);
    let ghost rv = fields_view(readings@);
    let mut out = readings;
    let mut i: usize = 0;
    while i < keys.len()
        invariant
            i <= keys@.len(),
            kv == names_view(keys@),
            sv == fields_view(stored@),
            forall|j: int| 0 <= j < i ==> has_name(sv, #[trigger] kv[j]),
            fields_view(out@) == rv + copied(sv, kv.take(i as int)),
        decreases keys.len() - i,
    {
        if !has_field(stored, &keys[i]) {
            assert(!has_name(sv, kv[i as int]));
            return None;
        }
        assert(kv.take(i as int + 1).drop_last() =~= kv.take(i as int));
        let ghost o0 = fields_view(out@);
        let v = get_field(stored, &keys[i]);
        out.push((keys[i].clone(), v));
        assert(fields_view(out@) =~= o0.push((kv[i as int], field_of(sv, kv[i as int]))));
        assert(fields_view(out@) =~= rv + copied(sv, kv.take(i as int + 1)));
        i = i + 1;
    }
    assert(kv.take(kv.len() as int) =~= kv);
    let ghost o1 = fields_view(out@);
    let ghost tv = timestamp@;
    push_field(&mut out, "last_update_timestamp", timestamp);
    assert(fields_view(out@) =~= o1 + seq![("last_update_timestamp"@, tv)]);
    Some(out)
}

fn names4(a: &str, b: &str, c: &str, d: &str) -> (r: Vec<String>)
    ensures
        names_view(r@) == seq![a@, b@, c@, d@],
{
    let r = vec![
        <String as StringExecFns>::from_str(a),
        <String as StringExecFns>::from_str(b),
        <String as StringExecFns>::from_str(c),
        <String as StringExecFns>::from_str(d),
    ];
    assert(names_view(r@) =~= seq![a@, b@, c@, d@]);
    r
}

/// The record of a valve after a beacon that states its state directly.
pub fn valve_state_record(closed_or_open: bool, stored: &Vec<(String, Field)>, timestamp: Field) -> (r: Option<Vec<(String, Field)>>)
    ensures
        match beacon_record_spec(
            seq![("status"@, FieldV::Bool(closed_or_open))],
            fields_view(stored@),
            seq!["mac_address"@, "id"@, "name"@, "area_name"@],
            timestamp@,
        ) {
            Some(v) => r is Some && fields_view(r->Some_0@) == v,
            None => r is None,
        },
{
    let mut readings: Vec<(String, Field)> = Vec::new();
    push_field(&mut readings, "status", Field::Bool(closed_or_open));
    assert(fields_view(readings@) =~= seq![("status"@, FieldV::Bool(closed_or_open))]);
    let keys = names4("mac_address", "id", "name", "area_name");
    beacon_record(readings, stored, &keys, timestamp)
}

/// The record of a contact sensor with the contact status `status` (0 open,
/// 1 closed; numbers are held in thousandths).
pub fn contact_record(status: u64, stored: &Vec<(String, Field)>, timestamp: Field) -> (r: Option<Vec<(String, Field)>>)
    requires
        status <= 1,
    ensures
        match beacon_record_spec(
            seq![("status"@, FieldV::Num(status * 1000))],
            fields_view(stored@),
            seq!["token"@, "mac_address"@, "id"@, "area_name"@],
            timestamp@,
        ) {
            Some(v) => r is Some && fields_view(r->Some_0@) == v,
            None => r is None,
        },
{
    let mut readings: Vec<(String, Field)> = Vec::new();
    let n: i64 = if status == 0 {
        0
    } else {
        1000
    };
    push_field(&mut readings, "status", Field::Num(n));
    assert(fields_view(readings@) =~= seq![("status"@, FieldV::Num(status * 1000))]);
    let keys = names4("token", "mac_address", "id", "area_name");
    beacon_record(readings, stored, &keys, timestamp)
}

/// The record of a thermometer with its decoded readings.
pub fn thermometer_record(
    temperature: Field,
    humidity: Field,
    battery: Field,
    stored: &Vec<(String, Field)>,
    timestamp: Field,
) -> (r: Option<Vec<(String, Field)>>)
    ensures
        match beacon_record_spec(
            seq![("temperature"@, temperature@), ("humidity"@, humidity@), ("battery"@, battery@)],
            fields_view(stored@),
            seq!["token"@, "mac_address"@, "id"@, "name"@, "area_name"@],
            timestamp@,
        ) {
            Some(v) => r is Some && fields_view(r->Some_0@) == v,
            None => r is None,
        },
{
    let ghost tv = temperature@;
    let ghost hv = humidity@;
    let ghost bv = battery@;
    let mut readings: Vec<(String, Field)> = Vec::new();
    push_field(&mut readings, "temperature", temperature);
    push_field(&mut readings, "humidity", humidity);
    push_field(&mut readings, "battery", battery);
    assert(fields_view(readings@) =~= seq![("temperature"@, tv), ("humidity"@, hv), ("battery"@, bv)]);
    let keys = vec![
        <String as StringExecFns>::from_str("token"),
        <String as StringExecFns>::from_str("mac_address"),
        <String as StringExecFns>::from_str("id"),
        <String as StringExecFns>::from_str("name"),
        <String as StringExecFns>::from_str("area_name"),
    ];
    assert(names_view(keys@) =~= seq!["token"@, "mac_address"@, "id"@, "name"@, "area_name"@]);
    beacon_record(readings, stored, &keys, timestamp)
}

/// The contact status stored for a sensor: its `status` field where that is
/// a whole non-negative number (held in thousandths), else none.
pub open spec fn stored_contact_spec(stored: FieldsV) -> Option<u64> {
    match field_of(stored, "status"@) {
        FieldV::Num(x) => if x >= 0 && x % 1000 == 0 {
            Some((x / 1000) as u64)
        } else {
            None
        },
        _ => None,
    }
}

pub fn stored_contact_status(stored: &Vec<(String, Field)>) -> (r: Option<u64>)
    ensures
        r == stored_contact_spec(fields_view(stored@)),
{
    let k = <String as StringExecFns>::from_str("status");
    match get_field(stored, &k) {
        Field::Num(x) => if x >= 0 && x % 1000 == 0 {
            Some((x / 1000) as u64)
        } else {
            None
        },
        _ => None,
    }
}

/// What a contact beacon whose decoded state is `open` leads to: nothing
/// where the stored status is already the derived one, else the one record to
/// write (`contact_record` of the derived status), after which the
/// connections of the sensor are followed once. `None` too where the stored
/// record lacks a field the new record copies.
pub fn contact_write(stored: &Vec<(String, Field)>, open: bool, timestamp: Field) -> (r: Option<Vec<(String, Field)>>)
    ensures
        stored_contact_spec(fields_view(stored@)) == Some(contact_status(open)) ==> r is None,
        stored_contact_spec(fields_view(stored@)) != Some(contact_status(open)) ==> match beacon_record_spec(
            seq![("status"@, FieldV::Num(contact_status(open) * 1000))],
            fields_view(stored@),
            seq!["token"@, "mac_address"@, "id"@, "area_name"@],
            timestamp@,
        ) {
            Some(v) => r is Some && fields_view(r->Some_0@) == v,
            None => r is None,
        },
{
    match contact_update(stored_contact_status(stored), open) {
        None => None,
        Some(status) => contact_record(status, stored, timestamp),
    }
}

} // verus!
