use vstd::prelude::*;
use vstd::string::StringExecFns;
use crate::fields::{
    apply_spec, has_name, lemma_field_of_apply, contains_name, field_of, fields_view, get_field, is_named, names_view, push_field, Field,
    FieldV, FieldsV,
};

verus! {

/// The per-channel readings of a power meter.
pub struct PowerChannel {
    pub active_power: Field,
    pub energy: Field,
}

/// The four components of an RGBW status.
pub struct Rgbw {
    pub r: Field,
    pub g: Field,
    pub b: Field,
    pub w: Field,
}

/// One telemetry report of a physical device: its top-level fields, the names
/// of the fields that changed, the power meter's channels (named `channel{N}`)
/// and, where the device sent one that could be decoded, its RGBW status.
pub struct Telemetry {
    pub fields: Vec<(String, Field)>,
    pub updated_properties: Vec<String>,
    pub power_data: Vec<(String, PowerChannel)>,
    pub rgbw: Option<Rgbw>,
}

/// The device class of a logical topic, which selects the transform rule.
#[derive(Clone, Copy, Debug, PartialEq, Eq, Structural)]
pub enum DeviceClass {
    PowerEnergySensor,
    DimmableLight,
    RgbwLight,
    Light,
    Siren,
    Switch,
    FanCoil,
    FloorValve,
    RollerShutter,
    GarageGate,
    PirSensor,
    RadarSensor,
    Button,
    BistableButton,
    WindowSensor,
    DoorSensor,
    Other,
}

/// Why a report gives nothing to write.
#[derive(Clone, Copy, Debug, PartialEq, Eq, Structural)]
pub enum TransformError {
    /// Nothing in the report maps onto the logical topic.
    NoRelevantChange,
    /// A field that the rule needs is missing or of the wrong kind.
    MalformedRecord,
}

pub open spec fn class_spec(name: Seq<char>) -> DeviceClass {
    if name == "domo_power_energy_sensor"@ {
        DeviceClass::PowerEnergySensor
    } else if name == "domo_light_dimmable"@ {
        DeviceClass::DimmableLight
    } else if name == "domo_rgbw_light"@ {
        DeviceClass::RgbwLight
    } else if name == "domo_light"@ {
        DeviceClass::Light
    } else if name == "domo_siren"@ {
        DeviceClass::Siren
    } else if name == "domo_switch"@ {
        DeviceClass::Switch
    } else if name == "domo_fan_coil"@ {
        DeviceClass::FanCoil
    } else if name == "domo_floor_valve"@ {
        DeviceClass::FloorValve
    } else if name == "domo_roller_shutter"@ {
        DeviceClass::RollerShutter
    } else if name == "domo_garage_gate"@ {
        DeviceClass::GarageGate
    } else if name == "domo_pir_sensor"@ {
        DeviceClass::PirSensor
    } else if name == "domo_radar_sensor"@ {
        DeviceClass::RadarSensor
    } else if name == "domo_button"@ {
        DeviceClass::Button
    } else if name == "domo_bistable_button"@ {
        DeviceClass::BistableButton
    } else if name == "domo_window_sensor"@ {
        DeviceClass::WindowSensor
    } else if name == "domo_door_sensor"@ {
        DeviceClass::DoorSensor
    } else {
        DeviceClass::Other
    }
}

/// The device class of the topic named `name`.
pub fn class_of(name: &String) -> (r: DeviceClass)
    ensures
        r == class_spec(name@),
{
    if is_named(name, "domo_power_energy_sensor") {
        DeviceClass::PowerEnergySensor
    } else if is_named(name, "domo_light_dimmable") {
        DeviceClass::DimmableLight
    } else if is_named(name, "domo_rgbw_light") {
        DeviceClass::RgbwLight
    } else if is_named(name, "domo_light") {
        DeviceClass::Light
    } else if is_named(name, "domo_siren") {
        DeviceClass::Siren
    } else if is_named(name, "domo_switch") {
        DeviceClass::Switch
    } else if is_named(name, "domo_fan_coil") {
        DeviceClass::FanCoil
    } else if is_named(name, "domo_floor_valve") {
        DeviceClass::FloorValve
    } else if is_named(name, "domo_roller_shutter") {
        DeviceClass::RollerShutter
    } else if is_named(name, "domo_garage_gate") {
        DeviceClass::GarageGate
    } else if is_named(name, "domo_pir_sensor") {
        DeviceClass::PirSensor
    } else if is_named(name, "domo_radar_sensor") {
        DeviceClass::RadarSensor
    } else if is_named(name, "domo_button") {
        DeviceClass::Button
    } else if is_named(name, "domo_bistable_button") {
        DeviceClass::BistableButton
    } else if is_named(name, "domo_window_sensor") {
        DeviceClass::WindowSensor
    } else if is_named(name, "domo_door_sensor") {
        DeviceClass::DoorSensor
    } else {
        DeviceClass::Other
    }
}

// ---- channel names ----

pub open spec fn digit_char(d: nat) -> char {
    if d == 0 {
        '0'
    } else if d == 1 {
        '1'
    } else if d == 2 {
        '2'
    } else if d == 3 {
        '3'
    } else if d == 4 {
        '4'
    } else if d == 5 {
        '5'
    } else if d == 6 {
        '6'
    } else if d == 7 {
        '7'
    } else if d == 8 {
        '8'
    } else {
        '9'
    }
}

/// The decimal digits of `n`, without leading zeros.
pub open spec fn dec(n: nat) -> Seq<char>
    decreases n,
{
    if n < 10 {
        seq![digit_char(n)]
    } else {
        dec(n / 10) + seq![digit_char(n % 10)]
    }
}

/// A per-channel field name such as `output2`.
pub open spec fn named(prefix: Seq<char>, n: u64) -> Seq<char> {
    prefix + dec(n as nat)
}

fn digit_str(d: u64) -> (r: String)
    requires
        d < 10,
    ensures
        r@ == seq![digit_char(d as nat)],
{
    let s: &str = if d == 0 {
        proof { reveal_strlit("0"); }
        "0"
    } else if d == 1 {
        proof { reveal_strlit("1"); }
        "1"
    } else if d == 2 {
        proof { reveal_strlit("2"); }
        "2"
    } else if d == 3 {
        proof { reveal_strlit("3"); }
        "3"
    } else if d == 4 {
        proof { reveal_strlit("4"); }
        "4"
    } else if d == 5 {
        proof { reveal_strlit("5"); }
        "5"
    } else if d == 6 {
        proof { reveal_strlit("6"); }
        "6"
    } else if d == 7 {
        proof { reveal_strlit("7"); }
        "7"
    } else if d == 8 {
        proof { reveal_strlit("8"); }
        "8"
    } else {
        proof { reveal_strlit("9"); }
        "9"
    };
    <String as StringExecFns>::from_str(s)
}

/// `n` written in decimal.
pub fn decimal(n: u64) -> (r: String)
    ensures
        r@ == dec(n as nat),
    decreases n,
{
    if n < 10 {
        digit_str(n)
    } else {
        let mut s = decimal(n / 10);
        let d = digit_str(n % 10);
        s.append(d.as_str());
        s
    }
}

/// `prefix` followed by `n` in decimal.
pub fn channel_name(prefix: &str, n: u64) -> (r: String)
    ensures
        r@ == named(prefix@, n),
{
    let mut s = <String as StringExecFns>::from_str(prefix);
    let d = decimal(n);
    s.append(d.as_str());
    s
}

// ---- reading a report ----

pub open spec fn tf(t: Telemetry, name: Seq<char>) -> FieldV {
    field_of(fields_view(t.fields@), name)
}

pub open spec fn props(t: Telemetry) -> Seq<Seq<char>> {
    names_view(t.updated_properties@)
}

pub open spec fn channels_view(pd: Seq<(String, PowerChannel)>) -> Seq<(Seq<char>, (FieldV, FieldV))> {
    pd.map_values(|e: (String, PowerChannel)| (e.0@, (e.1.active_power@, e.1.energy@)))
}

/// The readings of the meter channel `name`: the last entry of that name,
/// both `Null` when there is none.
pub open spec fn channel_of(pd: Seq<(Seq<char>, (FieldV, FieldV))>, name: Seq<char>) -> (FieldV, FieldV)
    decreases pd.len(),
{
    if pd.len() == 0 {
        (FieldV::Null, FieldV::Null)
    } else if pd.last().0 == name {
        pd.last().1
    } else {
        channel_of(pd.drop_last(), name)
    }
}

fn get_channel(pd: &Vec<(String, PowerChannel)>, name: &String) -> (r: (Field, Field))
    ensures
        (r.0@, r.1@) == channel_of(channels_view(pd@), name@),
{
    let mut r = (Field::Null, Field::Null);
    let mut i: usize = 0;
    while i < pd.len()
        invariant
            i <= pd@.len(),
            (r.0@, r.1@) == channel_of(channels_view(pd@).take(i as int), name@),
        decreases pd.len() - i,
    {
        assert(channels_view(pd@).take(i as int + 1).drop_last() =~= channels_view(pd@).take(
            i as int,
        ));
        if pd[i].0 == *name {
            r = (pd[i].1.active_power.copy(), pd[i].1.energy.copy());
        }
        i = i + 1;
    }
    assert(channels_view(pd@).take(pd@.len() as int) =~= channels_view(pd@));
    r
}

fn report_field(t: &Telemetry, name: &str) -> (r: Field)
    ensures
        r@ == tf(*t, name@),
{
    let k = <String as StringExecFns>::from_str(name);
    get_field(&t.fields, &k)
}

// ---- energy ----

/// The stored energy total plus `delta`: the stored total counts as 0 where it
/// is missing or not a number; `None` where `delta` is not a number or the sum
/// leaves the range of `i64`.
pub open spec fn add_energy(stored: FieldsV, delta: FieldV) -> Option<int> {
    let base = match field_of(stored, "energy"@) {
        FieldV::Num(x) => x,
        _ => 0,
    };
    match delta {
        FieldV::Num(d) => if i64::MIN <= base + d <= i64::MAX {
            Some(base + d)
        } else {
            None
        },
        _ => None,
    }
}

pub fn accumulate(stored: &Vec<(String, Field)>, delta: &Field) -> (r: Option<i64>)
    ensures
        match add_energy(fields_view(stored@), delta@) {
            Some(x) => r == Some(x as i64),
            None => r is None,
        },
{
    let k = <String as StringExecFns>::from_str("energy");
    let base: i64 = match get_field(stored, &k) {
        Field::Num(x) => x,
        _ => 0,
    };
    match delta {
        Field::Num(d) => base.checked_add(*d),
        _ => None,
    }
}

/// The properties reported as changed on the logical topic: `power` for each
/// `power{n}` among the device's changed fields and `energy` for each
/// `energy{n}`, in order.
pub open spec fn echo(ps: Seq<Seq<char>>, n: u64) -> Seq<Seq<char>>
    decreases ps.len(),
{
    if ps.len() == 0 {
        Seq::empty()
    } else {
        let prev = echo(ps.drop_last(), n);
        let p = ps.last();
        let a = if p == named("power"@, n) {
            prev.push("power"@)
        } else {
            prev
        };
        if p == named("energy"@, n) {
            a.push("energy"@)
        } else {
            a
        }
    }
}

fn echo_props(ps: &Vec<String>, n: u64) -> (r: Vec<String>)
    ensures
        names_view(r@) == echo(names_view(ps@), n),
{
    let pw = channel_name("power", n);
    let en = channel_name("energy", n);
    let mut r: Vec<String> = Vec::new();
    let mut i: usize = 0;
    while i < ps.len()
        invariant
            i <= ps@.len(),
            pw@ == named("power"@, n),
            en@ == named("energy"@, n),
            names_view(r@) == echo(names_view(ps@).take(i as int), n),
        decreases ps.len() - i,
    {
        assert(names_view(ps@).take(i as int + 1).drop_last() =~= names_view(ps@).take(i as int));
        let ghost r0 = names_view(r@);
        if ps[i] == pw {
            r.push(<String as StringExecFns>::from_str("power"));
            assert(names_view(r@) =~= r0.push("power"@));
        }
        let ghost r1 = names_view(r@);
        if ps[i] == en {
            r.push(<String as StringExecFns>::from_str("energy"));
            assert(names_view(r@) =~= r1.push("energy"@));
        }
        i = i + 1;
    }
    assert(names_view(ps@).take(ps@.len() as int) =~= names_view(ps@));
    r
}

/// What a transform yields, seen as plain values.
pub open spec fn result_view(r: Result<Vec<(String, Field)>, TransformError>) -> Result<FieldsV, TransformError> {
    match r {
        Ok(p) => Ok(fields_view(p@)),
        Err(e) => Err(e),
    }
}

// ---- the rules ----

/// Power meter: only when `power_data` changed; `power` from the channel's
/// active power, `energy` accumulated from the channel's energy.
pub open spec fn power_spec(t: Telemetry, n: u64, stored: FieldsV) -> Result<FieldsV, TransformError> {
    if !props(t).contains("power_data"@) {
        Err(TransformError::NoRelevantChange)
    } else {
        let ch = channel_of(channels_view(t.power_data@), named("channel"@, n));
        match add_energy(stored, ch.1) {
            None => Err(TransformError::MalformedRecord),
            Some(e) => Ok(
                seq![
                    ("power"@, ch.0),
                    ("energy"@, FieldV::Num(e)),
                    ("updated_properties"@, FieldV::Names(seq!["power"@, "energy"@])),
                ],
            ),
        }
    }
}

fn transform_power(t: &Telemetry, n: u64, stored: &Vec<(String, Field)>) -> (r: Result<
    Vec<(String, Field)>,
    TransformError,
>)
    ensures
        result_view(r) == power_spec(*t, n, fields_view(stored@)),
{
    let pd = <String as StringExecFns>::from_str("power_data");
    if !contains_name(&t.updated_properties, &pd) {
        return Err(TransformError::NoRelevantChange);
    }
    let cn = channel_name("channel", n);
    let ch = get_channel(&t.power_data, &cn);
    match accumulate(stored, &ch.1) {
        None => Err(TransformError::MalformedRecord),
        Some(e) => {
            let mut p: Vec<(String, Field)> = Vec::new();
            push_field(&mut p, "power", ch.0);
            push_field(&mut p, "energy", Field::Num(e));
            let names = vec![
                <String as StringExecFns>::from_str("power"),
                <String as StringExecFns>::from_str("energy"),
            ];
            assert(names_view(names@) =~= seq!["power"@, "energy"@]);
            push_field(&mut p, "updated_properties", Field::Names(names));
            assert(fields_view(p@) =~= seq![
                ("power"@, ch.0@),
                ("energy"@, FieldV::Num(e as int)),
                ("updated_properties"@, FieldV::Names(seq!["power"@, "energy"@])),
            ]);
            Ok(p)
        },
    }
}

/// The component of an RGBW status that channel `n` selects, if any.
pub open spec fn rgbw_channel(c: Rgbw, n: u64) -> Option<FieldV> {
    if n == 1 {
        Some(c.r@)
    } else if n == 2 {
        Some(c.g@)
    } else if n == 3 {
        Some(c.b@)
    } else if n == 4 {
        Some(c.w@)
    } else {
        None
    }
}

/// Dimmable light: from a dimmer, `status`, `power` and accumulated `energy`
/// of its first channel; from an RGBW device, the component that the channel
/// selects as `status`; from anything else, nothing.
pub open spec fn dimmable_spec(target: Seq<char>, t: Telemetry, n: u64, stored: FieldsV) -> Result<
    FieldsV,
    TransformError,
> {
    if target == "shelly_dimmer"@ {
        match add_energy(stored, tf(t, "energy1"@)) {
            None => Err(TransformError::MalformedRecord),
            Some(e) => Ok(
                seq![
                    ("status"@, tf(t, "dimmer_status"@)),
                    ("power"@, tf(t, "power1"@)),
                    ("energy"@, FieldV::Num(e)),
                    ("updated_properties"@, FieldV::Names(echo(props(t), 1))),
                ],
            ),
        }
    } else if target == "shelly_rgbw"@ {
        match t.rgbw {
            None => Err(TransformError::MalformedRecord),
            Some(c) => match rgbw_channel(c, n) {
                Some(v) => Ok(seq![("status"@, v)]),
                None => Ok(Seq::empty()),
            },
        }
    } else {
        Ok(Seq::empty())
    }
}

fn transform_dimmable(target: &String, t: &Telemetry, n: u64, stored: &Vec<(String, Field)>) -> (r:
    Result<Vec<(String, Field)>, TransformError>)
    ensures
        result_view(r) == dimmable_spec(target@, *t, n, fields_view(stored@)),
{
    let mut p: Vec<(String, Field)> = Vec::new();
    if is_named(target, "shelly_dimmer") {
        let delta = report_field(t, "energy1");
        match accumulate(stored, &delta) {
            None => Err(TransformError::MalformedRecord),
            Some(e) => {
                let status = report_field(t, "dimmer_status");
                let power = report_field(t, "power1");
                let echoed = echo_props(&t.updated_properties, 1);
                let ghost sv = status@;
                let ghost pv = power@;
                let ghost ev = names_view(echoed@);
                push_field(&mut p, "status", status);
                push_field(&mut p, "power", power);
                push_field(&mut p, "energy", Field::Num(e));
                push_field(&mut p, "updated_properties", Field::Names(echoed));
                assert(fields_view(p@) =~= seq![
                    ("status"@, sv),
                    ("power"@, pv),
                    ("energy"@, FieldV::Num(e as int)),
                    ("updated_properties"@, FieldV::Names(ev)),
                ]);
                Ok(p)
            },
        }
    } else if is_named(target, "shelly_rgbw") {
        match &t.rgbw {
            None => Err(TransformError::MalformedRecord),
            Some(c) => {
                if 1 <= n && n <= 4 {
                    let v = if n == 1 {
                        c.r.copy()
                    } else if n == 2 {
                        c.g.copy()
                    } else if n == 3 {
                        c.b.copy()
                    } else {
                        c.w.copy()
                    };
                    let ghost vv = v@;
                    push_field(&mut p, "status", v);
                    assert(fields_view(p@) =~= seq![("status"@, vv)]);
                } else {
                    assert(fields_view(p@) =~= Seq::empty());
                }
                Ok(p)
            },
        }
    } else {
        assert(fields_view(p@) =~= Seq::empty());
        Ok(p)
    }
}

/// RGBW light: the four components, as they are.
pub open spec fn rgbw_spec(t: Telemetry) -> Result<FieldsV, TransformError> {
    match t.rgbw {
        None => Err(TransformError::MalformedRecord),
        Some(c) => Ok(seq![("r"@, c.r@), ("g"@, c.g@), ("b"@, c.b@), ("w"@, c.w@)]),
    }
}

fn transform_rgbw(t: &Telemetry) -> (r: Result<Vec<(String, Field)>, TransformError>)
    ensures
        result_view(r) == rgbw_spec(*t),
{
    match &t.rgbw {
        None => Err(TransformError::MalformedRecord),
        Some(c) => {
            let mut p: Vec<(String, Field)> = Vec::new();
            push_field(&mut p, "r", c.r.copy());
            push_field(&mut p, "g", c.g.copy());
            push_field(&mut p, "b", c.b.copy());
            push_field(&mut p, "w", c.w.copy());
            assert(fields_view(p@) =~= seq![("r"@, c.r@), ("g"@, c.g@), ("b"@, c.b@), ("w"@, c.w@)]);
            Ok(p)
        },
    }
}

/// Whether the device is a single-channel relay without a power meter.
pub open spec fn single_relay(target: Seq<char>) -> bool {
    target == "shelly_1"@ || target == "shelly_1plus"@
}

/// Light, siren, switch, fan coil: `status` from `output{n}`; unless the
/// device is a single relay, `power` from `power{n}` and `energy` accumulated
/// from `energy{n}`; then the changed properties.
pub open spec fn switched_spec(target: Seq<char>, t: Telemetry, n: u64, stored: FieldsV) -> Result<
    FieldsV,
    TransformError,
> {
    let status = ("status"@, tf(t, named("output"@, n)));
    let echoed = ("updated_properties"@, FieldV::Names(echo(props(t), n)));
    if single_relay(target) {
        Ok(seq![status, echoed])
    } else {
        match add_energy(stored, tf(t, named("energy"@, n))) {
            None => Err(TransformError::MalformedRecord),
            Some(e) => Ok(
                seq![
                    status,
                    ("power"@, tf(t, named("power"@, n))),
                    ("energy"@, FieldV::Num(e)),
                    echoed,
                ],
            ),
        }
    }
}

fn transform_switched(target: &String, t: &Telemetry, n: u64, stored: &Vec<(String, Field)>) -> (r:
    Result<Vec<(String, Field)>, TransformError>)
    ensures
        result_view(r) == switched_spec(target@, *t, n, fields_view(stored@)),
{
    let status = get_field(&t.fields, &channel_name("output", n));
    let echoed = echo_props(&t.updated_properties, n);
    let ghost sv = status@;
    let ghost ev = names_view(echoed@);
    let mut p: Vec<(String, Field)> = Vec::new();
    if is_named(target, "shelly_1") || is_named(target, "shelly_1plus") {
        push_field(&mut p, "status", status);
        push_field(&mut p, "updated_properties", Field::Names(echoed));
        assert(fields_view(p@) =~= seq![("status"@, sv), ("updated_properties"@, FieldV::Names(ev))]);
        Ok(p)
    } else {
        let delta = get_field(&t.fields, &channel_name("energy", n));
        match accumulate(stored, &delta) {
            None => Err(TransformError::MalformedRecord),
            Some(e) => {
                let power = get_field(&t.fields, &channel_name("power", n));
                let ghost pv = power@;
                push_field(&mut p, "status", status);
                push_field(&mut p, "power", power);
                push_field(&mut p, "energy", Field::Num(e));
                push_field(&mut p, "updated_properties", Field::Names(echoed));
                assert(fields_view(p@) =~= seq![
                    ("status"@, sv),
                    ("power"@, pv),
                    ("energy"@, FieldV::Num(e as int)),
                    ("updated_properties"@, FieldV::Names(ev)),
                ]);
                Ok(p)
            },
        }
    }
}

/// Motion, radar and button sensors: only when `input{n}` changed, `status`
/// from `input{n}`.
pub open spec fn presence_spec(t: Telemetry, n: u64) -> Result<FieldsV, TransformError> {
    if props(t).contains(named("input"@, n)) {
        Ok(seq![("status"@, tf(t, named("input"@, n)))])
    } else {
        Err(TransformError::NoRelevantChange)
    }
}

fn transform_presence(t: &Telemetry, n: u64) -> (r: Result<Vec<(String, Field)>, TransformError>)
    ensures
        result_view(r) == presence_spec(*t, n),
{
    let name = channel_name("input", n);
    if contains_name(&t.updated_properties, &name) {
        let v = get_field(&t.fields, &name);
        let ghost vv = v@;
        let mut p: Vec<(String, Field)> = Vec::new();
        push_field(&mut p, "status", v);
        assert(fields_view(p@) =~= seq![("status"@, vv)]);
        Ok(p)
    } else {
        Err(TransformError::NoRelevantChange)
    }
}

/// The rule of the logical topic's class, for a report of the device topic
/// named `target` on channel `n`; `stored` is the logical topic's value.
pub open spec fn transform_spec(
    class: DeviceClass,
    target: Seq<char>,
    n: u64,
    t: Telemetry,
    stored: FieldsV,
) -> Result<FieldsV, TransformError> {
    match class {
        DeviceClass::PowerEnergySensor => power_spec(t, n, stored),
        DeviceClass::DimmableLight => dimmable_spec(target, t, n, stored),
        DeviceClass::RgbwLight => rgbw_spec(t),
        DeviceClass::Light | DeviceClass::Siren | DeviceClass::Switch | DeviceClass::FanCoil => {
            switched_spec(target, t, n, stored)
        },
        DeviceClass::FloorValve => Ok(seq![("status"@, tf(t, named("output"@, n)))]),
        DeviceClass::RollerShutter | DeviceClass::GarageGate => Ok(
            seq![("shutter_status"@, tf(t, "shutter_status"@))],
        ),
        DeviceClass::PirSensor | DeviceClass::RadarSensor | DeviceClass::Button
        | DeviceClass::BistableButton => presence_spec(t, n),
        DeviceClass::WindowSensor | DeviceClass::DoorSensor => if target == "domo_ble_contact"@ {
            Ok(seq![("status"@, tf(t, "status"@))])
        } else {
            Ok(seq![("status"@, tf(t, named("input"@, n)))])
        },
        DeviceClass::Other => Ok(Seq::empty()),
    }
}

/// The fields to write into the logical topic `source_topic_name` (whose
/// value is `stored`) for a report `t` of the device topic
/// `target_topic_name`, which feeds it through channel `channel`.
pub fn transform(
    source_topic_name: &String,
    target_topic_name: &String,
    channel: u64,
    t: &Telemetry,
    stored: &Vec<(String, Field)>,
) -> (r: Result<Vec<(String, Field)>, TransformError>)
    ensures
        result_view(r) == transform_spec(
            class_spec(source_topic_name@),
            target_topic_name@,
            channel,
            *t,
            fields_view(stored@),
        ),
{
    let class = class_of(source_topic_name);
    match class {
        DeviceClass::PowerEnergySensor => transform_power(t, channel, stored),
        DeviceClass::DimmableLight => transform_dimmable(target_topic_name, t, channel, stored),
        DeviceClass::RgbwLight => transform_rgbw(t),
        DeviceClass::Light | DeviceClass::Siren | DeviceClass::Switch | DeviceClass::FanCoil => {
            transform_switched(target_topic_name, t, channel, stored)
        },
        DeviceClass::FloorValve => {
            let v = get_field(&t.fields, &channel_name("output", channel));
            single_status(v)
        },
        DeviceClass::RollerShutter | DeviceClass::GarageGate => {
            let v = report_field(t, "shutter_status");
            let ghost vv = v@;
            let mut p: Vec<(String, Field)> = Vec::new();
            push_field(&mut p, "shutter_status", v);
            assert(fields_view(p@) =~= seq![("shutter_status"@, vv)]);
            Ok(p)
        },
        DeviceClass::PirSensor | DeviceClass::RadarSensor | DeviceClass::Button
        | DeviceClass::BistableButton => transform_presence(t, channel),
        DeviceClass::WindowSensor | DeviceClass::DoorSensor => {
            let v = if is_named(target_topic_name, "domo_ble_contact") {
                report_field(t, "status")
            } else {
                get_field(&t.fields, &channel_name("input", channel))
            };
            single_status(v)
        },
        DeviceClass::Other => {
            let p: Vec<(String, Field)> = Vec::new();
            assert(fields_view(p@) =~= Seq::empty());
            Ok(p)
        },
    }
}

fn single_status(v: Field) -> (r: Result<Vec<(String, Field)>, TransformError>)
    ensures
        result_view(r) == Ok::<FieldsV, TransformError>(seq![("status"@, v@)]),
{
    let ghost vv = v@;
    let mut p: Vec<(String, Field)> = Vec::new();
    push_field(&mut p, "status", v);
    assert(fields_view(p@) =~= seq![("status"@, vv)]);
    Ok(p)
}

// ---- laws ----

/// The stored energy total, 0 where it is missing or not a number.
pub open spec fn energy_base(stored: FieldsV) -> int {
    match field_of(stored, "energy"@) {
        FieldV::Num(x) => x,
        _ => 0,
    }
}

/// Whether the rule of `class`, for reports of the device `target`, keeps an
/// energy total.
pub open spec fn keeps_energy(class: DeviceClass, target: Seq<char>) -> bool {
    match class {
        DeviceClass::PowerEnergySensor => true,
        DeviceClass::DimmableLight => target == "shelly_dimmer"@,
        DeviceClass::Light | DeviceClass::Siren | DeviceClass::Switch | DeviceClass::FanCoil => {
            !single_relay(target)
        },
        _ => false,
    }
}

/// The energy reading that the rule adds to the total.
pub open spec fn energy_delta(class: DeviceClass, n: u64, t: Telemetry) -> FieldV {
    match class {
        DeviceClass::PowerEnergySensor => channel_of(
            channels_view(t.power_data@),
            named("channel"@, n),
        ).1,
        DeviceClass::DimmableLight => tf(t, "energy1"@),
        _ => tf(t, named("energy"@, n)),
    }
}

proof fn lemma_energy_of_patch(class: DeviceClass, target: Seq<char>, n: u64, t: Telemetry, stored: FieldsV)
    requires
        keeps_energy(class, target),
        transform_spec(class, target, n, t, stored) is Ok,
    ensures
        add_energy(stored, energy_delta(class, n, t)) is Some,
        field_of(apply_spec(stored, transform_spec(class, target, n, t, stored)->Ok_0), "energy"@)
            == FieldV::Num(add_energy(stored, energy_delta(class, n, t))->Some_0),
{
    reveal_strlit("energy");
    reveal_strlit("power");
    reveal_strlit("status");
    reveal_strlit("updated_properties");
    let p = transform_spec(class, target, n, t, stored)->Ok_0;
    lemma_field_of_apply(stored, p, "energy"@);
    assert(p[p.len() - 1].0 != "energy"@);
    assert(p[1].0 == "energy"@ || p[2].0 == "energy"@);
    assert(has_name(p, "energy"@));
    let e = FieldV::Num(add_energy(stored, energy_delta(class, n, t))->Some_0);
    assert(p.drop_last().last() == ("energy"@, e));
    assert(field_of(p, "energy"@) == field_of(p.drop_last(), "energy"@));
}

/// Energy accumulates: two reports in a row, each with an energy reading,
/// leave the stored total at the first total plus both readings.
pub proof fn lemma_energy_accumulates(
    class: DeviceClass,
    target: Seq<char>,
    n: u64,
    t1: Telemetry,
    t2: Telemetry,
    stored: FieldsV,
    d1: int,
    d2: int,
)
    requires
        keeps_energy(class, target),
        energy_delta(class, n, t1) == FieldV::Num(d1),
        energy_delta(class, n, t2) == FieldV::Num(d2),
        transform_spec(class, target, n, t1, stored) is Ok,
        transform_spec(
            class,
            target,
            n,
            t2,
            apply_spec(stored, transform_spec(class, target, n, t1, stored)->Ok_0),
        ) is Ok,
    ensures
        ({
            let s1 = apply_spec(stored, transform_spec(class, target, n, t1, stored)->Ok_0);
            let s2 = apply_spec(s1, transform_spec(class, target, n, t2, s1)->Ok_0);
            field_of(s2, "energy"@) == FieldV::Num(energy_base(stored) + d1 + d2)
        }),
{
    let s1 = apply_spec(stored, transform_spec(class, target, n, t1, stored)->Ok_0);
    lemma_energy_of_patch(class, target, n, t1, stored);
    lemma_energy_of_patch(class, target, n, t2, s1);
}

/// A sensor rule that needs a changed property fails with `NoRelevantChange`
/// exactly when the property is not among the changed ones; a motion, radar or
/// button sensor then sets `status` from `input{n}`, for every channel `n`.
pub proof fn lemma_required_change(class: DeviceClass, target: Seq<char>, n: u64, t: Telemetry, stored: FieldsV)
    ensures
        (class == DeviceClass::PirSensor || class == DeviceClass::RadarSensor || class
            == DeviceClass::Button || class == DeviceClass::BistableButton) ==> transform_spec(
            class,
            target,
            n,
            t,
            stored,
        ) == if props(t).contains(named("input"@, n)) {
            Ok(seq![("status"@, tf(t, named("input"@, n)))])
        } else {
            Err(TransformError::NoRelevantChange)
        },
        class == DeviceClass::PowerEnergySensor ==> ((transform_spec(class, target, n, t, stored)
            == Err::<FieldsV, TransformError>(TransformError::NoRelevantChange)) == !props(
            t,
        ).contains("power_data"@)),
        class == DeviceClass::PowerEnergySensor && props(t).contains("power_data"@) && transform_spec(
            class,
            target,
            n,
            t,
            stored,
        ) is Ok ==> transform_spec(class, target, n, t, stored)->Ok_0[0] == (
            "power"@,
            channel_of(channels_view(t.power_data@), named("channel"@, n)).0,
        ),
{
}

} // verus!
