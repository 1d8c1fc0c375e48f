use vstd::prelude::*;
use vstd::string::StringExecFns;

verus! {

/// One edge of the routing table: the logical topic `source_topic_name` /
/// `source_topic_uuid` is fed by channel `target_channel_number` of a device.
pub struct ConnElem {
    pub source_topic_name: String,
    pub source_topic_uuid: String,
    pub target_channel_number: u64,
}

/// An edge seen as plain values: (source topic name, source topic uuid, channel).
pub type EdgeView = (Seq<char>, Seq<char>, u64);

impl View for ConnElem {
    type V = EdgeView;

    open spec fn view(&self) -> EdgeView {
        (self.source_topic_name@, self.source_topic_uuid@, self.target_channel_number)
    }
}

impl ConnElem {
    pub fn copy(&self) -> (r: ConnElem)
        ensures
            r@ == self@,
    {
        ConnElem {
            source_topic_name: self.source_topic_name.clone(),
            source_topic_uuid: self.source_topic_uuid.clone(),
            target_channel_number: self.target_channel_number,
        }
    }
}

/// A connection-declaration record as it is stored in the cache. `topic_uuid`
/// is the record's own identity; the other fields may be missing.
pub struct ConnectionRecord {
    pub topic_uuid: String,
    pub source_topic_name: Option<String>,
    pub target_topic_name: Option<String>,
    pub target_topic_uuid: Option<String>,
    pub target_channel_number: Option<u64>,
}

/// The routing key of a device topic: its name, a dash, its uuid.
pub open spec fn conn_key(name: Seq<char>, uuid: Seq<char>) -> Seq<char> {
    name + seq!['-'] + uuid
}

/// What a record contributes to the table: nothing when a field is missing,
/// else its key and its edge.
pub open spec fn record_entry(r: ConnectionRecord) -> Option<(Seq<char>, EdgeView)> {
    match (r.target_topic_name, r.target_topic_uuid, r.target_channel_number, r.source_topic_name) {
        (Some(tn), Some(tu), Some(ch), Some(sn)) => Some(
            (conn_key(tn@, tu@), (sn@, r.topic_uuid@, ch)),
        ),
        _ => None,
    }
}

/// The table that a sequence of records declares, in record order.
pub open spec fn entries_of(records: Seq<ConnectionRecord>) -> Seq<(Seq<char>, EdgeView)>
    decreases records.len(),
{
    if records.len() == 0 {
        Seq::empty()
    } else {
        let prev = entries_of(records.drop_last());
        match record_entry(records.last()) {
            Some(e) => prev.push(e),
            None => prev,
        }
    }
}

/// The edges filed under `key`, in table order.
pub open spec fn edges_under(entries: Seq<(Seq<char>, EdgeView)>, key: Seq<char>) -> Seq<EdgeView>
    decreases entries.len(),
{
    if entries.len() == 0 {
        Seq::empty()
    } else {
        let prev = edges_under(entries.drop_last(), key);
        if entries.last().0 == key {
            prev.push(entries.last().1)
        } else {
            prev
        }
    }
}

/// The routing table: for each device topic, the logical topics that its
/// channels feed. It is only ever rebuilt whole from the declaration records.
pub struct ActuatorIndex {
    entries: Vec<(String, ConnElem)>,
}

impl View for ActuatorIndex {
    type V = Seq<(Seq<char>, EdgeView)>;

    closed spec fn view(&self) -> Seq<(Seq<char>, EdgeView)> {
        self.entries@.map_values(|e: (String, ConnElem)| (e.0@, e.1@))
    }
}

/// Builds `name-uuid`.
fn make_key(name: &String, uuid: &String) -> (r: String)
    ensures
        r@ == conn_key(name@, uuid@),
{
    proof {
        reveal_strlit("-");
    }
    name.clone().concat("-").concat(uuid.as_str())
}

impl ActuatorIndex {
    pub fn new() -> (r: ActuatorIndex)
        ensures
            r@ == Seq::<(Seq<char>, EdgeView)>::empty(),
    {
        let r = ActuatorIndex { entries: Vec::new() };
        assert(r@ =~= Seq::<(Seq<char>, EdgeView)>::empty());
        r
    }

    /// Replaces the whole table with the one that `records` declare; records
    /// with a missing field are skipped.
    pub fn rebuild(&mut self, records: &Vec<ConnectionRecord>)
        ensures
            final(self)@ == entries_of(records@),
    {
        let mut entries: Vec<(String, ConnElem)> = Vec::new();
        let mut i: usize = 0;
        while i < records.len()
            invariant
                i <= records@.len(),
                entries@.map_values(|e: (String, ConnElem)| (e.0@, e.1@)) == entries_of(
                    records@.take(i as int),
                ),
            decreases records.len() - i,
        {
            let r = &records[i];
            proof {
                assert(records@.take(i as int + 1).drop_last() =~= records@.take(i as int));
            }
            let ghost before = entries@;
            match (&r.target_topic_name, &r.target_topic_uuid, &r.target_channel_number, &r.source_topic_name) {
                (Some(tn), Some(tu), Some(ch), Some(sn)) => {
                    let key = make_key(tn, tu);
                    let edge = ConnElem {
                        source_topic_name: sn.clone(),
                        source_topic_uuid: r.topic_uuid.clone(),
                        target_channel_number: *ch,
                    };
                    entries.push((key, edge));
                    assert(entries@.map_values(|e: (String, ConnElem)| (e.0@, e.1@)) =~= before.map_values(
                        |e: (String, ConnElem)| (e.0@, e.1@),
                    ).push(record_entry(records@[i as int]).unwrap()));
                },
                _ => {},
            }
            i = i + 1;
        }
        assert(records@.take(records@.len() as int) =~= records@);
        self.entries = entries;
    }

    /// The edges filed under `topic_name-topic_uuid`; empty when none is.
    pub fn lookup(&self, topic_name: &String, topic_uuid: &String) -> (r: Vec<ConnElem>)
        ensures
            r@.map_values(|c: ConnElem| c@) == edges_under(self@, conn_key(topic_name@, topic_uuid@)),
    {
        let key = make_key(topic_name, topic_uuid);
        let mut out: Vec<ConnElem> = Vec::new();
        let mut i: usize = 0;
        while i < self.entries.len()
            invariant
                i <= self.entries@.len(),
                key@ == conn_key(topic_name@, topic_uuid@),
                out@.map_values(|c: ConnElem| c@) == edges_under(self@.take(i as int), key@),
            decreases self.entries.len() - i,
        {
            proof {
                assert(self@.take(i as int + 1).drop_last() =~= self@.take(i as int));
            }
            let ghost before = out@;
            if self.entries[i].0 == key {
                out.push(self.entries[i].1.copy());
                assert(out@.map_values(|c: ConnElem| c@) =~= before.map_values(|c: ConnElem| c@).push(
                    self@[i as int].1,
                ));
            }
            i = i + 1;
        }
        assert(self@.take(self@.len() as int) =~= self@);
        out
    }
}

/// Rebuilding is idempotent: two rebuilds from one unchanged record set,
/// whatever the tables held before, give the same table and so the same edges
/// under every key.
pub proof fn lemma_rebuild_idempotent(
    records: Seq<ConnectionRecord>,
    first: ActuatorIndex,
    second: ActuatorIndex,
)
    requires
        first@ == entries_of(records),
        second@ == entries_of(records),
    ensures
        first@ == second@,
        forall|key: Seq<char>| edges_under(first@, key) == edges_under(second@, key),
{
}

} // verus!
