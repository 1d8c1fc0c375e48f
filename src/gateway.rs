use vstd::prelude::*;
use crate::command::{Command, CommandType, CommandV};
use crate::fields::{apply_patch, apply_spec, fields_view, is_named, Field, FieldsV};
use crate::routing::{ConnElem, EdgeView};
use crate::transform::{class_spec, result_view, transform, transform_spec, Telemetry, TransformError};

verus! {

/// A new value for a topic in the cache.
pub struct TopicWrite {
    pub topic_name: String,
    pub topic_uuid: String,
    pub value: Vec<(String, Field)>,
}

pub type WriteV = (Seq<char>, Seq<char>, FieldsV);

impl View for TopicWrite {
    type V = WriteV;

    open spec fn view(&self) -> WriteV {
        (self.topic_name@, self.topic_uuid@, fields_view(self.value@))
    }
}

pub open spec fn writes_view(w: Seq<TopicWrite>) -> Seq<WriteV> {
    w.map_values(|x: TopicWrite| x@)
}

pub open spec fn stored_view(s: Seq<Option<Vec<(String, Field)>>>) -> Seq<Option<FieldsV>> {
    s.map_values(
        |o: Option<Vec<(String, Field)>>|
            match o {
                Some(v) => Some(fields_view(v@)),
                None => None,
            },
    )
}

/// What one edge contributes when the device topic `target` reports `t`: the
/// logical topic's value with the transform's fields written over it; nothing
/// where the logical topic is not in the cache or the transform fails.
pub open spec fn edge_write(e: EdgeView, stored: Option<FieldsV>, target: Seq<char>, t: Telemetry) -> Option<WriteV> {
    match stored {
        None => None,
        Some(s) => match transform_spec(class_spec(e.0), target, e.2, t, s) {
            Ok(p) => Some((e.0, e.1, apply_spec(s, p))),
            Err(_) => None,
        },
    }
}

/// The writes for all edges, in edge order.
pub open spec fn cascade_spec(
    edges: Seq<EdgeView>,
    stored: Seq<Option<FieldsV>>,
    target: Seq<char>,
    t: Telemetry,
) -> Seq<WriteV>
    decreases edges.len(),
{
    if edges.len() == 0 || stored.len() == 0 {
        Seq::empty()
    } else {
        let prev = cascade_spec(edges.drop_last(), stored.drop_last(), target, t);
        match edge_write(edges.last(), stored.last(), target, t) {
            Some(w) => prev.push(w),
            None => prev,
        }
    }
}

/// The cache writes that a report `t` of the device topic `target_topic_name`
/// causes along `edges` (the routing table's edges for that topic);
/// `stored[i]` is the current value of the logical topic of `edges[i]`, `None`
/// where the cache has none.
pub fn cascade_writes(
    edges: &Vec<ConnElem>,
    stored: &Vec<Option<Vec<(String, Field)>>>,
    target_topic_name: &String,
    t: &Telemetry,
) -> (r: Vec<TopicWrite>)
    requires
        edges@.len() == stored@.len(),
    ensures
        writes_view(r@) == cascade_spec(
            edges@.map_values(|c: ConnElem| c@),
            stored_view(stored@),
            target_topic_name@,
            *t,
        ),
{
    let ghost ev = edges@.map_values(|c: ConnElem| c@);
    let ghost sv = stored_view(stored@);
    let mut out: Vec<TopicWrite> = Vec::new();
    let mut i: usize = 0;
    while i < edges.len()
        invariant
            i <= edges@.len(),
            edges@.len() == stored@.len(),
            ev == edges@.map_values(|c: ConnElem| c@),
            sv == stored_view(stored@),
            writes_view(out@) == cascade_spec(
                ev.take(i as int),
                sv.take(i as int),
                target_topic_name@,
                *t,
            ),
        decreases edges.len() - i,
    {
        assert(ev.take(i as int + 1).drop_last() =~= ev.take(i as int));
        assert(sv.take(i as int + 1).drop_last() =~= sv.take(i as int));
        let ghost w0 = writes_view(out@);
        let e = &edges[i];
        assert(ev[i as int] == e@);
        match &stored[i] {
            None => {},
            Some(s) => {
                let res = transform(&e.source_topic_name, target_topic_name, e.target_channel_number, t, s);
                match res {
                    Ok(p) => {
                        let mut v = copy_fields(s);
                        apply_patch(&mut v, &p);
                        let w = TopicWrite {
                            topic_name: e.source_topic_name.clone(),
                            topic_uuid: e.source_topic_uuid.clone(),
                            value: v,
                        };
                        let ghost wv = w@;
                        out.push(w);
                        assert(writes_view(out@) =~= w0.push(wv));
                    },
                    Err(_) => {},
                }
            },
        }
        i = i + 1;
    }
    assert(ev.take(edges@.len() as int) =~= ev);
    assert(sv.take(edges@.len() as int) =~= sv);
    out
}

pub fn copy_fields(v: &Vec<(String, Field)>) -> (r: Vec<(String, Field)>)
    ensures
        fields_view(r@) == fields_view(v@),
{
    let mut r: Vec<(String, Field)> = Vec::new();
    let mut i: usize = 0;
    while i < v.len()
        invariant
            i <= v@.len(),
            fields_view(r@) == fields_view(v@).take(i as int),
        decreases v.len() - i,
    {
        let ghost r0 = fields_view(r@);
        r.push((v[i].0.clone(), v[i].1.copy()));
        assert(fields_view(r@) =~= r0.push(fields_view(v@)[i as int]));
        assert(fields_view(r@) =~= fields_view(v@).take(i as int + 1));
        i = i + 1;
    }
    assert(fields_view(v@).take(v@.len() as int) =~= fields_view(v@));
    r
}

// ---- beacons ----

/// How a beacon report is handled, by the class of the device topic it names.
#[derive(Clone, Copy, Debug, PartialEq, Eq, Structural)]
pub enum BeaconKind {
    Thermometer,
    Contact,
    Valve,
    Other,
}

pub open spec fn beacon_kind_spec(topic_name: Seq<char>) -> BeaconKind {
    if topic_name == "domo_ble_thermometer"@ {
        BeaconKind::Thermometer
    } else if topic_name == "domo_ble_contact"@ {
        BeaconKind::Contact
    } else if topic_name == "domo_ble_valve"@ {
        BeaconKind::Valve
    } else {
        BeaconKind::Other
    }
}

pub fn beacon_kind(topic_name: &String) -> (r: BeaconKind)
    ensures
        r == beacon_kind_spec(topic_name@),
{
    if is_named(topic_name, "domo_ble_thermometer") {
        BeaconKind::Thermometer
    } else if is_named(topic_name, "domo_ble_contact") {
        BeaconKind::Contact
    } else if is_named(topic_name, "domo_ble_valve") {
        BeaconKind::Valve
    } else {
        BeaconKind::Other
    }
}

/// A valve beacon whose payload is `0` or `1` states the valve's state
/// directly (`Some(closed_or_open)`, true for `1`); any other payload is a
/// signal-strength report (`None`).
pub fn valve_beacon_state(payload: &String) -> (r: Option<bool>)
    ensures
        r == if payload@ == "1"@ {
            Some(true)
        } else if payload@ == "0"@ {
            Some(false)
        } else {
            None::<bool>
        },
{
    if is_named(payload, "1") {
        Some(true)
    } else if is_named(payload, "0") {
        Some(false)
    } else {
        None
    }
}

/// The contact status that a decoded state gives: 0 for open, 1 otherwise.
pub open spec fn contact_status(open: bool) -> u64 {
    if open {
        0
    } else {
        1
    }
}

/// The contact status to write, where one is to be written: the derived
/// status, unless the stored one is the same. A write is followed by one
/// cascading update of the connections.
pub fn contact_update(stored_status: Option<u64>, open: bool) -> (r: Option<u64>)
    ensures
        r == if stored_status == Some(contact_status(open)) {
            None::<u64>
        } else {
            Some(contact_status(open))
        },
{
    let v: u64 = if open {
        0
    } else {
        1
    };
    match stored_status {
        Some(s) => if s == v {
            None
        } else {
            Some(v)
        },
        None => Some(v),
    }
}

// ---- cache commands ----

/// The kinds of command that come through the cache.
#[derive(Clone, Copy, Debug, PartialEq, Eq, Structural)]
pub enum VolatileKind {
    /// Passed to an actuator as it is.
    ActuatorPassthrough,
    /// Passed to a valve as it is.
    ValvePassthrough,
    Turn,
    ValveGesture,
    Dim,
    Rgbw,
    Shutter,
}

pub open spec fn volatile_kind_spec(command_type: Seq<char>, has_value: bool) -> Option<VolatileKind> {
    if command_type == "shelly_actuator_command"@ && has_value {
        Some(VolatileKind::ActuatorPassthrough)
    } else if command_type == "radiator_valve_command"@ && has_value {
        Some(VolatileKind::ValvePassthrough)
    } else if command_type == "turn_command"@ {
        Some(VolatileKind::Turn)
    } else if command_type == "valve_command"@ {
        Some(VolatileKind::ValveGesture)
    } else if command_type == "dim_command"@ {
        Some(VolatileKind::Dim)
    } else if command_type == "rgbw_command"@ {
        Some(VolatileKind::Rgbw)
    } else if command_type == "shutter_command"@ {
        Some(VolatileKind::Shutter)
    } else {
        None
    }
}

/// The kind of a cache command of type `command_type`; `has_value` tells
/// whether it carries a value, which the passthrough kinds need. `None` where
/// the command cannot be handled.
pub fn volatile_kind(command_type: &String, has_value: bool) -> (r: Option<VolatileKind>)
    ensures
        r == volatile_kind_spec(command_type@, has_value),
{
    if is_named(command_type, "shelly_actuator_command") && has_value {
        Some(VolatileKind::ActuatorPassthrough)
    } else if is_named(command_type, "radiator_valve_command") && has_value {
        Some(VolatileKind::ValvePassthrough)
    } else if is_named(command_type, "turn_command") {
        Some(VolatileKind::Turn)
    } else if is_named(command_type, "valve_command") {
        Some(VolatileKind::ValveGesture)
    } else if is_named(command_type, "dim_command") {
        Some(VolatileKind::Dim)
    } else if is_named(command_type, "rgbw_command") {
        Some(VolatileKind::Rgbw)
    } else if is_named(command_type, "shutter_command") {
        Some(VolatileKind::Shutter)
    } else {
        None
    }
}

/// A command passed through to the actuator `mac_address`, addressed directly.
pub fn actuator_command(mac_address: &String, payload: &String) -> (r: Command)
    ensures
        r@ == (CommandType::Actuator, mac_address@, Seq::<char>::empty(), payload@),
{
    Command {
        command_type: CommandType::Actuator,
        mac_address: mac_address.clone(),
        actuator_mac_address: String::new(),
        payload: payload.clone(),
    }
}

} // verus!
