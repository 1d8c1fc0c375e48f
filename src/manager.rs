use vstd::prelude::*;
use vstd::string::StringExecFns;
use crate::fields::{
    apply_patch, apply_spec, field_of, fields_view, get_field, has_name, push_field, Field, FieldV,
    FieldsV,
};
use crate::gateway::copy_fields;
use crate::gateway::{cascade_spec, cascade_writes, stored_view, writes_view, TopicWrite};
use crate::routing::{
    conn_key, edges_under, entries_of, ActuatorIndex, ConnElem, ConnectionRecord, EdgeView,
};
use crate::transform::Telemetry;

verus! {

/// A topic record of the cache: its name, its uuid and its value.
pub struct DeviceRecord {
    pub topic_name: String,
    pub topic_uuid: String,
    pub value: Vec<(String, Field)>,
}

pub type RecordV = (Seq<char>, Seq<char>, FieldsV);

impl View for DeviceRecord {
    type V = RecordV;

    open spec fn view(&self) -> RecordV {
        (self.topic_name@, self.topic_uuid@, fields_view(self.value@))
    }
}

pub open spec fn records_view(r: Seq<DeviceRecord>) -> Seq<RecordV> {
    r.map_values(|x: DeviceRecord| x@)
}

/// The text of the field `name`, where it is text.
pub open spec fn text_of(fields: FieldsV, name: Seq<char>) -> Option<Seq<char>> {
    match field_of(fields, name) {
        FieldV::Text(s) => Some(s),
        _ => None,
    }
}

/// The record's login and password are `user` and `pass`, and it names a
/// mac address.
pub open spec fn cred_match(r: RecordV, user: Seq<char>, pass: Seq<char>) -> bool {
    &&& text_of(r.2, "user_login"@) == Some(user)
    &&& text_of(r.2, "user_password"@) == Some(pass)
    &&& text_of(r.2, "mac_address"@) is Some
}

/// The record's mac address is `mac`.
pub open spec fn mac_match(r: RecordV, mac: Seq<char>) -> bool {
    text_of(r.2, "mac_address"@) == Some(mac)
}

fn text_field(fields: &Vec<(String, Field)>, name: &str) -> (r: Option<String>)
    ensures
        match text_of(fields_view(fields@), name@) {
            Some(s) => r is Some && r->Some_0@ == s,
            None => r is None,
        },
{
    let k = <String as StringExecFns>::from_str(name);
    match get_field(fields, &k) {
        Field::Text(s) => Some(s),
        _ => None,
    }
}

/// The index of the first record with the mac address `mac`.
fn find_by_mac(records: &Vec<DeviceRecord>, mac: &String) -> (r: Option<usize>)
    ensures
        match r {
            Some(i) => i < records@.len() && mac_match(records_view(records@)[i as int], mac@)
                && forall|j: int| 0 <= j < i ==> !mac_match(records_view(records@)[j], mac@),
            None => forall|j: int|
                0 <= j < records@.len() ==> !mac_match(records_view(records@)[j], mac@),
        },
{
    let ghost rv = records_view(records@);
    let mut i: usize = 0;
    while i < records.len()
        invariant
            i <= records@.len(),
            rv == records_view(records@),
            forall|j: int| 0 <= j < i ==> !mac_match(rv[j], mac@),
        decreases records.len() - i,
    {
        assert(rv[i as int] == records@[i as int]@);
        match text_field(&records[i].value, "mac_address") {
            Some(m) => {
                if m == *mac {
                    return Some(i);
                }
            },
            None => {},
        }
        i = i + 1;
    }
    None
}

/// The routing context: the table of connections from device topics to the
/// logical topics they feed.
pub struct DHTManager {
    pub actuators_index: ActuatorIndex,
}

impl DHTManager {
    pub fn new() -> (r: DHTManager)
        ensures
            r.actuators_index@ == Seq::<(Seq<char>, EdgeView)>::empty(),
    {
        DHTManager { actuators_index: ActuatorIndex::new() }
    }

    /// Rebuilds the routing table from all connection-declaration records.
    pub fn build_actuators_index(&mut self, records: &Vec<ConnectionRecord>)
        ensures
            final(self).actuators_index@ == entries_of(records@),
    {
        self.actuators_index.rebuild(records);
    }

    /// The edges that start at the device topic `topic_name` / `topic_uuid`.
    pub fn connections(&self, topic_name: &String, topic_uuid: &String) -> (r: Vec<ConnElem>)
        ensures
            r@.map_values(|c: ConnElem| c@) == edges_under(
                self.actuators_index@,
                conn_key(topic_name@, topic_uuid@),
            ),
    {
        self.actuators_index.lookup(topic_name, topic_uuid)
    }

    /// The cache writes that the report `t` of the device topic `topic_name` /
    /// `topic_uuid` causes; `stored[i]` is the current value of the logical
    /// topic of the `i`-th edge that `connections` gives, `None` where the
    /// cache has none.
    pub fn update_actuator_connections(
        &self,
        topic_name: &String,
        topic_uuid: &String,
        t: &Telemetry,
        stored: &Vec<Option<Vec<(String, Field)>>>,
    ) -> (r: Vec<TopicWrite>)
        requires
            stored@.len() == edges_under(
                self.actuators_index@,
                conn_key(topic_name@, topic_uuid@),
            ).len(),
        ensures
            writes_view(r@) == cascade_spec(
                edges_under(self.actuators_index@, conn_key(topic_name@, topic_uuid@)),
                stored_view(stored@),
                topic_name@,
                *t,
            ),
    {
        let edges = self.actuators_index.lookup(topic_name, topic_uuid);
        cascade_writes(&edges, stored, topic_name, t)
    }

    /// The first record whose login and password are `user` and `password`:
    /// its mac address and topic name; `None` where no record matches.
    /// `records` are the records of the relays that log in, in the order to
    /// search them.
    pub fn get_auth_cred(&self, records: &Vec<DeviceRecord>, user: &String, password: &String) -> (r:
        Option<(String, String)>)
        ensures
            match r {
                Some(p) => exists|i: int|
                    0 <= i < records@.len() && cred_match(records_view(records@)[i], user@, password@)
                        && (forall|j: int|
                        0 <= j < i ==> !cred_match(records_view(records@)[j], user@, password@))
                        && text_of(records_view(records@)[i].2, "mac_address"@) == Some(p.0@)
                        && p.1@ == records_view(records@)[i].0,
                None => forall|j: int|
                    0 <= j < records@.len() ==> !cred_match(
                        records_view(records@)[j],
                        user@,
                        password@,
                    ),
            },
    {
        let ghost rv = records_view(records@);
        let mut i: usize = 0;
        while i < records.len()
            invariant
                i <= records@.len(),
                rv == records_view(records@),
                forall|j: int| 0 <= j < i ==> !cred_match(rv[j], user@, password@),
            decreases records.len() - i,
        {
            let rec = &records[i];
            assert(rv[i as int] == rec@);
            let login = text_field(&rec.value, "user_login");
            let pass = text_field(&rec.value, "user_password");
            let mac = text_field(&rec.value, "mac_address");
            match (login, pass, mac) {
                (Some(l), Some(p), Some(m)) => {
                    if l == *user && p == *password {
                        return Some((m, rec.topic_name.clone()));
                    }
                },
                _ => {},
            }
            i = i + 1;
        }
        None
    }

    /// The index of the first of `records` with the mac address `mac_address`.
    pub fn get_topic(&self, records: &Vec<DeviceRecord>, mac_address: &String) -> (r: Option<usize>)
        ensures
            match r {
                Some(i) => i < records@.len() && mac_match(records_view(records@)[i as int], mac_address@)
                    && forall|j: int|
                    0 <= j < i ==> !mac_match(records_view(records@)[j], mac_address@),
                None => forall|j: int|
                    0 <= j < records@.len() ==> !mac_match(records_view(records@)[j], mac_address@),
            },
    {
        find_by_mac(records, mac_address)
    }

    /// As `get_topic`, over the records of every device class that relays or
    /// beacons can report for, in the order to search them.
    pub fn get_actuator_from_mac_address(&self, records: &Vec<DeviceRecord>, mac_address: &String) -> (r:
        Option<usize>)
        ensures
            match r {
                Some(i) => i < records@.len() && mac_match(records_view(records@)[i as int], mac_address@)
                    && forall|j: int|
                    0 <= j < i ==> !mac_match(records_view(records@)[j], mac_address@),
                None => forall|j: int|
                    0 <= j < records@.len() ==> !mac_match(records_view(records@)[j], mac_address@),
            },
    {
        find_by_mac(records, mac_address)
    }
}

// ---- relay network settings ----

/// Whether a relay that reports the network `ssid` is to be moved to `wanted`.
pub open spec fn needs_wifi(ssid: Option<Seq<char>>, wanted: Seq<char>) -> bool {
    ssid is Some && ssid->Some_0 != wanted
}

pub open spec fn opt_names_view(s: Seq<Option<String>>) -> Seq<Option<Seq<char>>> {
    s.map_values(|o: Option<String>| match o {
        Some(x) => Some(x@),
        None => None,
    })
}

/// The relays of `roster` to move, and those to keep, in roster order.
pub open spec fn wifi_split(roster: Seq<Seq<char>>, ssids: Seq<Option<Seq<char>>>, wanted: Seq<char>) -> (
    Seq<Seq<char>>,
    Seq<Seq<char>>,
)
    decreases roster.len(),
{
    if roster.len() == 0 || ssids.len() == 0 {
        (Seq::empty(), Seq::empty())
    } else {
        let prev = wifi_split(roster.drop_last(), ssids.drop_last(), wanted);
        if needs_wifi(ssids.last(), wanted) {
            (prev.0.push(roster.last()), prev.1)
        } else {
            (prev.0, prev.1.push(roster.last()))
        }
    }
}

pub open spec fn str_view(s: Seq<String>) -> Seq<Seq<char>> {
    s.map_values(|x: String| x@)
}

/// The network check of the connected relays: `ssids[i]` is the network that
/// the `i`-th relay of `roster` reports, `None` where its record has none. The
/// relays on another network than `wanted` are returned, to be sent a change
/// of network, and leave the roster until they connect again.
pub fn check_wifi(roster: &mut Vec<String>, ssids: &Vec<Option<String>>, wanted: &String) -> (r: Vec<String>)
    requires
        old(roster)@.len() == ssids@.len(),
    ensures
        ({
            let split = wifi_split(str_view(old(roster)@), opt_names_view(ssids@), wanted@);
            &&& str_view(r@) == split.0
            &&& str_view(final(roster)@) == split.1
        }),
{
    let ghost rv = str_view(roster@);
    let ghost sv = opt_names_view(ssids@);
    let mut moved: Vec<String> = Vec::new();
    let mut kept: Vec<String> = Vec::new();
    let mut i: usize = 0;
    while i < roster.len()
        invariant
            i <= roster@.len(),
            roster@.len() == ssids@.len(),
            rv == str_view(roster@),
            sv == opt_names_view(ssids@),
            rv == str_view(old(roster)@),
            (str_view(moved@), str_view(kept@)) == wifi_split(
                rv.take(i as int),
                sv.take(i as int),
                wanted@,
            ),
        decreases roster.len() - i,
    {
        assert(rv.take(i as int + 1).drop_last() =~= rv.take(i as int));
        assert(sv.take(i as int + 1).drop_last() =~= sv.take(i as int));
        let ghost m0 = str_view(moved@);
        let ghost k0 = str_view(kept@);
        let change = match &ssids[i] {
            Some(s) => *s != *wanted,
            None => false,
        };
        assert(change == needs_wifi(sv[i as int], wanted@));
        if change {
            moved.push(roster[i].clone());
            assert(str_view(moved@) =~= m0.push(rv[i as int]));
        } else {
            kept.push(roster[i].clone());
            assert(str_view(kept@) =~= k0.push(rv[i as int]));
        }
        i = i + 1;
    }
    assert(rv.take(rv.len() as int) =~= rv);
    assert(sv.take(sv.len() as int) =~= sv);
    *roster = kept;
    moved
}

// ---- relay reports ----

/// The fields that a relay's stored record adds to a status it reports: its
/// area name and note where they are text, then its login, password, mac
/// address and id, then the time of the update. `None` where the record lacks
/// the login, password or mac address as text, or the id.
pub open spec fn identity_patch(stored: FieldsV, timestamp: FieldV) -> Option<FieldsV> {
    match (
        text_of(stored, "user_login"@),
        text_of(stored, "user_password"@),
        text_of(stored, "mac_address"@),
    ) {
        (Some(l), Some(p), Some(m)) => if has_name(stored, "id"@) {
            let a: FieldsV = match text_of(stored, "area_name"@) {
                Some(x) => seq![("area_name"@, FieldV::Text(x))],
                None => Seq::empty(),
            };
            let n: FieldsV = match text_of(stored, "note"@) {
                Some(x) => seq![("note"@, FieldV::Text(x))],
                None => Seq::empty(),
            };
            Some(
                a + n + seq![
                    ("user_login"@, FieldV::Text(l)),
                    ("user_password"@, FieldV::Text(p)),
                    ("mac_address"@, FieldV::Text(m)),
                    ("id"@, field_of(stored, "id"@)),
                    ("last_update_timestamp"@, timestamp),
                ],
            )
        } else {
            None
        },
        _ => None,
    }
}

fn has_field(fields: &Vec<(String, Field)>, name: &str) -> (r: bool)
    ensures
        r == has_name(fields_view(fields@), name@),
{
    let k = <String as StringExecFns>::from_str(name);
    let ghost fv = fields_view(fields@);
    let mut i: usize = 0;
    while i < fields.len()
        invariant
            i <= fields@.len(),
            fv == fields_view(fields@),
            k@ == name@,
            forall|j: int| 0 <= j < i ==> fv[j].0 != name@,
        decreases fields.len() - i,
    {
        if fields[i].0 == k {
            assert(fv[i as int].0 == name@);
            return true;
        }
        i = i + 1;
    }
    false
}

/// The value to store for a status that a relay reports: `status` with the
/// fields of `identity_patch` written over it; `None` where the relay's stored
/// record lacks one that is needed.
pub fn relay_status(status: &Vec<(String, Field)>, stored: &Vec<(String, Field)>, timestamp: Field) -> (r:
    Option<Vec<(String, Field)>>)
    ensures
        match identity_patch(fields_view(stored@), timestamp@) {
            Some(p) => r is Some && fields_view(r->Some_0@) == apply_spec(fields_view(status@), p),
            None => r is None,
        },
{
    let login = text_field(stored, "user_login");
    let pass = text_field(stored, "user_password");
    let mac = text_field(stored, "mac_address");
    match (login, pass, mac) {
        (Some(l), Some(p), Some(m)) => {
            if !has_field(stored, "id") {
                return None;
            }
            let ghost sv = fields_view(stored@);
            let mut patch: Vec<(String, Field)> = Vec::new();
            let ghost a: FieldsV = match text_of(sv, "area_name"@) {
                Some(x) => seq![("area_name"@, FieldV::Text(x))],
                None => Seq::empty(),
            };
            let ghost n: FieldsV = match text_of(sv, "note"@) {
                Some(x) => seq![("note"@, FieldV::Text(x))],
                None => Seq::empty(),
            };
            match text_field(stored, "area_name") {
                Some(x) => push_field(&mut patch, "area_name", Field::Text(x)),
                None => {},
            }
            assert(fields_view(patch@) =~= a);
            match text_field(stored, "note") {
                Some(x) => push_field(&mut patch, "note", Field::Text(x)),
                None => {},
            }
            assert(fields_view(patch@) =~= a + n);
            let ghost lv = l@;
            let ghost pv = p@;
            let ghost mv = m@;
            let ghost tv = timestamp@;
            push_field(&mut patch, "user_login", Field::Text(l));
            push_field(&mut patch, "user_password", Field::Text(p));
            push_field(&mut patch, "mac_address", Field::Text(m));
            let idk = <String as StringExecFns>::from_str("id");
            push_field(&mut patch, "id", get_field(stored, &idk));
            push_field(&mut patch, "last_update_timestamp", timestamp);
            assert(fields_view(patch@) =~= a + n + seq![
                ("user_login"@, FieldV::Text(lv)),
                ("user_password"@, FieldV::Text(pv)),
                ("mac_address"@, FieldV::Text(mv)),
                ("id"@, field_of(sv, "id"@)),
                ("last_update_timestamp"@, tv),
            ]);
            let mut v = copy_fields(status);
            apply_patch(&mut v, &patch);
            Some(v)
        },
        _ => None,
    }
}

} // verus!
