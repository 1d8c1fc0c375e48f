use vstd::prelude::*;
use crate::command::{Command, CommandType, CommandV};

verus! {

/// After this many dispatches without the valve reaching the desired state,
/// a command is given up.
pub const MAX_ATTEMPTS: u32 = 100;

/// An outstanding valve command: the valve's address, the state asked for
/// (`None` where the command named none, which never converges),
/// the command payload as JSON text, and how often it was dispatched.
pub struct ValveCommandEntry {
    pub valve: String,
    pub desired_state: Option<bool>,
    pub payload: String,
    pub attempts: u32,
}

pub type EntryV = (Seq<char>, Option<bool>, Seq<char>, u32);

impl View for ValveCommandEntry {
    type V = EntryV;

    open spec fn view(&self) -> EntryV {
        (self.valve@, self.desired_state, self.payload@, self.attempts)
    }
}

/// A signal-strength sample: valve, relay, rssi.
pub type SampleV = (Seq<char>, Seq<char>, int);

/// Outstanding valve commands and the last signal strength that each relay
/// reported for each valve.
pub struct ValveArbiter {
    samples: Vec<(String, String, i64)>,
    entries: Vec<ValveCommandEntry>,
}

pub open spec fn samples_view(s: Seq<(String, String, i64)>) -> Seq<SampleV> {
    s.map_values(|e: (String, String, i64)| (e.0@, e.1@, e.2 as int))
}

pub open spec fn entries_view(s: Seq<ValveCommandEntry>) -> Seq<EntryV> {
    s.map_values(|e: ValveCommandEntry| e@)
}

// ---- signal strength ----

/// `samples` after `relay` reported `rssi` for `valve`: the sample of that
/// pair is replaced in place, or appended where there was none.
pub open spec fn record_spec(samples: Seq<SampleV>, valve: Seq<char>, relay: Seq<char>, rssi: int) -> Seq<SampleV> {
    if exists|j: int| 0 <= j < samples.len() && samples[j].0 == valve && samples[j].1 == relay {
        Seq::new(
            samples.len(),
            |j: int|
                if samples[j].0 == valve && samples[j].1 == relay {
                    (valve, relay, rssi)
                } else {
                    samples[j]
                },
        )
    } else {
        samples.push((valve, relay, rssi))
    }
}

/// Sample `i` is the best for `valve`: no sample of the valve is stronger,
/// and every earlier one is weaker.
pub open spec fn is_best_at(samples: Seq<SampleV>, valve: Seq<char>, i: int) -> bool {
    &&& 0 <= i < samples.len()
    &&& samples[i].0 == valve
    &&& forall|j: int| 0 <= j < samples.len() && samples[j].0 == valve ==> samples[j].2 <= samples[i].2
    &&& forall|j: int| 0 <= j < i && samples[j].0 == valve ==> samples[j].2 < samples[i].2
}

/// The relay with the strongest sample for `valve`, the first recorded among
/// equals; `None` where no relay reported for it.
pub open spec fn best_spec(samples: Seq<SampleV>, valve: Seq<char>) -> Option<Seq<char>> {
    if exists|i: int| is_best_at(samples, valve, i) {
        Some(samples[choose|i: int| is_best_at(samples, valve, i)].1)
    } else {
        None
    }
}

proof fn lemma_best_unique(samples: Seq<SampleV>, valve: Seq<char>, i: int, k: int)
    requires
        is_best_at(samples, valve, i),
        is_best_at(samples, valve, k),
    ensures
        i == k,
{
    if i < k {
        assert(samples[i].2 < samples[k].2);
    } else if k < i {
        assert(samples[k].2 < samples[i].2);
    }
}

/// The best relay is the one with the strictly greatest sample among the
/// valve's samples, ties going to the first recorded; there is none only where
/// no relay reported for the valve.
pub proof fn lemma_best_relay(samples: Seq<SampleV>, valve: Seq<char>)
    ensures
        best_spec(samples, valve) is None <==> !(exists|j: int|
            0 <= j < samples.len() && samples[j].0 == valve),
        best_spec(samples, valve) is Some ==> exists|i: int|
            is_best_at(samples, valve, i) && samples[i].1 == best_spec(samples, valve)->Some_0,
{
    lemma_best_exists(samples, valve);
}

proof fn lemma_best_exists(samples: Seq<SampleV>, valve: Seq<char>)
    ensures
        (exists|j: int| 0 <= j < samples.len() && samples[j].0 == valve) ==> exists|i: int|
            is_best_at(samples, valve, i),
    decreases samples.len(),
{
    if samples.len() > 0 {
        let d = samples.drop_last();
        let n = samples.len() - 1;
        lemma_best_exists(d, valve);
        assert(forall|j: int| 0 <= j < n ==> d[j] == samples[j]);
        if exists|j: int| 0 <= j < d.len() && d[j].0 == valve {
            let k = choose|i: int| is_best_at(d, valve, i);
            if samples[n].0 == valve && samples[n].2 > d[k].2 {
                assert(is_best_at(samples, valve, n));
            } else {
                assert(is_best_at(samples, valve, k));
            }
        } else if samples[n].0 == valve {
            assert forall|j: int| 0 <= j < n implies samples[j].0 != valve by {
                assert(d[j] == samples[j]);
            }
            assert(is_best_at(samples, valve, n));
        } else {
            assert forall|j: int| 0 <= j < samples.len() implies samples[j].0 != valve by {
                if j < n {
                    assert(d[j] == samples[j]);
                }
            }
        }
    }
}

impl ValveArbiter {
    pub closed spec fn samples(&self) -> Seq<SampleV> {
        samples_view(self.samples@)
    }

    pub closed spec fn entries(&self) -> Seq<EntryV> {
        entries_view(self.entries@)
    }

    pub fn new() -> (r: ValveArbiter)
        ensures
            r.samples() == Seq::<SampleV>::empty(),
            r.entries() == Seq::<EntryV>::empty(),
    {
        let r = ValveArbiter { samples: Vec::new(), entries: Vec::new() };
        assert(r.samples() =~= Seq::<SampleV>::empty());
        assert(r.entries() =~= Seq::<EntryV>::empty());
        r
    }

    /// Records the latest sample of `relay` for `valve`, replacing the earlier
    /// one of that pair.
    pub fn record_rssi(&mut self, valve: &String, relay: &String, rssi: i64)
        ensures
            final(self).samples() == record_spec(old(self).samples(), valve@, relay@, rssi as int),
            final(self).entries() == old(self).entries(),
    {
        let ghost orig = self.samples();
        let mut found = false;
        let mut i: usize = 0;
        while i < self.samples.len()
            invariant
                i <= self.samples@.len(),
                self.samples@.len() == orig.len(),
                orig == old(self).samples(),
                self.entries == old(self).entries,
                forall|j: int|
                    0 <= j < i ==> samples_view(self.samples@)[j] == (if orig[j].0 == valve@
                        && orig[j].1 == relay@ {
                        (valve@, relay@, rssi as int)
                    } else {
                        orig[j]
                    }),
                forall|j: int| i <= j < orig.len() ==> samples_view(self.samples@)[j] == orig[j],
                found == exists|j: int| 0 <= j < i && orig[j].0 == valve@ && orig[j].1 == relay@,
            decreases self.samples.len() - i,
        {
            let ghost before = self.samples@;
            if self.samples[i].0 == *valve && self.samples[i].1 == *relay {
                self.samples.set(i, (valve.clone(), relay.clone(), rssi));
                found = true;
                assert(orig[i as int].0 == valve@ && orig[i as int].1 == relay@);
                assert(forall|j: int|
                    0 <= j < self.samples@.len() && j != i ==> samples_view(self.samples@)[j]
                        == samples_view(before)[j]);
            } else {
                assert(!(orig[i as int].0 == valve@ && orig[i as int].1 == relay@));
            }
            assert forall|j: int| 0 <= j < i + 1 implies samples_view(self.samples@)[j] == (if orig[j].0
                == valve@ && orig[j].1 == relay@ {
                (valve@, relay@, rssi as int)
            } else {
                orig[j]
            }) by {
                if j < i {
                    assert(samples_view(before)[j] == samples_view(self.samples@)[j]);
                }
            }
            assert(found == exists|j: int| 0 <= j < i + 1 && orig[j].0 == valve@ && orig[j].1 == relay@) by {
                if exists|j: int| 0 <= j < i + 1 && orig[j].0 == valve@ && orig[j].1 == relay@ {
                    let j = choose|j: int| 0 <= j < i + 1 && orig[j].0 == valve@ && orig[j].1 == relay@;
                    if j < i {
                        assert(exists|j: int| 0 <= j < i && orig[j].0 == valve@ && orig[j].1 == relay@);
                    }
                }
            }
            i = i + 1;
        }
        if found {
            assert(self.samples() =~= record_spec(orig, valve@, relay@, rssi as int));
        } else {
            assert(self.samples() =~= orig);
            self.samples.push((valve.clone(), relay.clone(), rssi));
            assert(self.samples() =~= orig.push((valve@, relay@, rssi as int)));
        }
    }

    /// The relay with the strongest recorded sample for `valve`, the first
    /// recorded among equals (see `lemma_best_relay`).
    pub fn best_relay_for(&self, valve: &String) -> (r: Option<String>)
        ensures
            match best_spec(self.samples(), valve@) {
                Some(x) => r is Some && r->Some_0@ == x,
                None => r is None,
            },
    {
        let ghost s = self.samples();
        let mut best: Option<usize> = None;
        let mut i: usize = 0;
        while i < self.samples.len()
            invariant
                i <= self.samples@.len(),
                s == self.samples(),
                best is None ==> forall|j: int| 0 <= j < i ==> s[j].0 != valve@,
                best is Some ==> ({
                    let b = best->Some_0 as int;
                    &&& b < i
                    &&& s[b].0 == valve@
                    &&& forall|j: int| 0 <= j < i && s[j].0 == valve@ ==> s[j].2 <= s[b].2
                    &&& forall|j: int| 0 <= j < b && s[j].0 == valve@ ==> s[j].2 < s[b].2
                }),
            decreases self.samples.len() - i,
        {
            if self.samples[i].0 == *valve {
                match best {
                    None => {
                        best = Some(i);
                    },
                    Some(b) => {
                        if self.samples[i].2 > self.samples[b].2 {
                            best = Some(i);
                        }
                    },
                }
            }
            i = i + 1;
        }
        match best {
            None => {
                proof {
                    if exists|k: int| is_best_at(s, valve@, k) {
                        let k = choose|k: int| is_best_at(s, valve@, k);
                        assert(s[k].0 == valve@);
                    }
                }
                None
            },
            Some(b) => {
                proof {
                    assert(is_best_at(s, valve@, b as int));
                    let k = choose|k: int| is_best_at(s, valve@, k);
                    lemma_best_unique(s, valve@, b as int, k);
                }
                Some(self.samples[b].1.clone())
            },
        }
    }
}

// ---- outstanding commands ----

/// `entries` with `e` in place of the entry of its valve, or with `e`
/// appended where there was none.
pub open spec fn insert_spec(entries: Seq<EntryV>, e: EntryV) -> Seq<EntryV> {
    if exists|j: int| 0 <= j < entries.len() && entries[j].0 == e.0 {
        Seq::new(entries.len(), |j: int| if entries[j].0 == e.0 { e } else { entries[j] })
    } else {
        entries.push(e)
    }
}

/// The valve command that relay `relay` is to carry to `valve`.
pub open spec fn valve_cmd(valve: Seq<char>, relay: Seq<char>, payload: Seq<char>) -> CommandV {
    (CommandType::Valve, valve, relay, payload)
}

/// The cache shows `valve` in the state asked for.
pub open spec fn converged(observed: Seq<(Seq<char>, bool)>, valve: Seq<char>, desired: Option<bool>) -> bool {
    desired is Some && exists|i: int|
        0 <= i < observed.len() && observed[i] == (valve, desired->Some_0)
}

/// One reconciliation of one entry: what remains of it and what is sent.
/// Converged: removed. Under the cap: sent through the best relay, with one
/// more attempt counted, or left as it is where no relay is known. At the
/// cap: removed.
pub open spec fn step_spec(e: EntryV, observed: Seq<(Seq<char>, bool)>, samples: Seq<SampleV>) -> (
    Option<EntryV>,
    Option<CommandV>,
) {
    if converged(observed, e.0, e.1) {
        (None, None)
    } else if e.3 < MAX_ATTEMPTS {
        match best_spec(samples, e.0) {
            Some(relay) => (
                Some((e.0, e.1, e.2, (e.3 + 1) as u32)),
                Some(valve_cmd(e.0, relay, e.2)),
            ),
            None => (Some(e), None),
        }
    } else {
        (None, None)
    }
}

/// One reconciliation of all entries, in order.
pub open spec fn reconcile_spec(
    entries: Seq<EntryV>,
    observed: Seq<(Seq<char>, bool)>,
    samples: Seq<SampleV>,
) -> (Seq<EntryV>, Seq<CommandV>)
    decreases entries.len(),
{
    if entries.len() == 0 {
        (Seq::empty(), Seq::empty())
    } else {
        let prev = reconcile_spec(entries.drop_last(), observed, samples);
        let st = step_spec(entries.last(), observed, samples);
        (
            match st.0 {
                Some(x) => prev.0.push(x),
                None => prev.0,
            },
            match st.1 {
                Some(c) => prev.1.push(c),
                None => prev.1,
            },
        )
    }
}

/// An entry leaves at a reconciliation exactly when the cache shows the state
/// asked for, or when it was already dispatched `MAX_ATTEMPTS` times; while it
/// stays, a dispatch counts one attempt and nothing else does.
pub proof fn lemma_entry_lifecycle(e: EntryV, observed: Seq<(Seq<char>, bool)>, samples: Seq<SampleV>)
    ensures
        step_spec(e, observed, samples).0 is None <==> (converged(observed, e.0, e.1) || e.3
            >= MAX_ATTEMPTS),
        step_spec(e, observed, samples).0 is Some ==> ({
            let n = step_spec(e, observed, samples).0->Some_0;
            &&& n.0 == e.0 && n.1 == e.1 && n.2 == e.2
            &&& step_spec(e, observed, samples).1 is Some ==> n.3 == e.3 + 1
            &&& step_spec(e, observed, samples).1 is None ==> n.3 == e.3
        }),
        step_spec(e, observed, samples).1 is Some <==> (!converged(observed, e.0, e.1) && e.3
            < MAX_ATTEMPTS && best_spec(samples, e.0) is Some),
{
}

/// Observed valve states seen as plain values.
pub open spec fn observed_view(o: Seq<(String, bool)>) -> Seq<(Seq<char>, bool)> {
    o.map_values(|x: (String, bool)| (x.0@, x.1))
}

/// The entry after `k` reconciliations against unchanged observations and
/// samples; `None` once it has left.
pub open spec fn after_rounds(e: EntryV, observed: Seq<(Seq<char>, bool)>, samples: Seq<SampleV>, k: nat) -> Option<EntryV>
    decreases k,
{
    if k == 0 {
        Some(e)
    } else {
        match after_rounds(e, observed, samples, (k - 1) as nat) {
            Some(x) => step_spec(x, observed, samples).0,
            None => None,
        }
    }
}

/// While a relay is known and the valve does not reach the state asked for,
/// an entry dispatched `a` times is dispatched again at each of the next
/// `MAX_ATTEMPTS - a` reconciliations and leaves at the one after: it is given
/// up exactly when its `MAX_ATTEMPTS`-th dispatch has failed.
pub proof fn lemma_abandoned_at_cap(e: EntryV, observed: Seq<(Seq<char>, bool)>, samples: Seq<SampleV>, k: nat)
    requires
        !converged(observed, e.0, e.1),
        best_spec(samples, e.0) is Some,
        e.3 <= MAX_ATTEMPTS,
    ensures
        k <= MAX_ATTEMPTS - e.3 ==> after_rounds(e, observed, samples, k) == Some(
            (e.0, e.1, e.2, (e.3 + k) as u32),
        ),
        k == MAX_ATTEMPTS - e.3 + 1 ==> after_rounds(e, observed, samples, k) is None,
    decreases k,
{
    if k > 0 {
        lemma_abandoned_at_cap(e, observed, samples, (k - 1) as nat);
    }
}

fn copy_entry(e: &ValveCommandEntry) -> (r: ValveCommandEntry)
    ensures
        r@ == e@,
{
    ValveCommandEntry {
        valve: e.valve.clone(),
        desired_state: e.desired_state,
        payload: e.payload.clone(),
        attempts: e.attempts,
    }
}

fn is_converged(observed: &Vec<(String, bool)>, valve: &String, desired: Option<bool>) -> (r: bool)
    ensures
        r == converged(observed_view(observed@), valve@, desired),
{
    let ghost ov = observed_view(observed@);
    match desired {
        None => false,
        Some(d) => {
            let mut i: usize = 0;
            while i < observed.len()
                invariant
                    i <= observed@.len(),
                    ov == observed_view(observed@),
                    desired == Some(d),
                    forall|j: int| 0 <= j < i ==> ov[j] != (valve@, d),
                decreases observed.len() - i,
            {
                if observed[i].1 == d && observed[i].0 == *valve {
                    assert(ov[i as int] == (valve@, d));
                    assert(desired == Some(d));
                    assert(0 <= i < ov.len());
                    assert(ov[i as int] == (valve@, desired->Some_0));
                    assert(converged(ov, valve@, desired));
                    return true;
                }
                i = i + 1;
            }
            false
        },
    }
}

impl ValveArbiter {
    fn insert(&mut self, e: ValveCommandEntry)
        ensures
            final(self).entries() == insert_spec(old(self).entries(), e@),
            final(self).samples() == old(self).samples(),
    {
        let ghost orig = self.entries();
        let mut found = false;
        let mut i: usize = 0;
        while i < self.entries.len()
            invariant
                i <= self.entries@.len(),
                self.entries@.len() == orig.len(),
                orig == old(self).entries(),
                self.samples == old(self).samples,
                forall|j: int|
                    0 <= j < i ==> entries_view(self.entries@)[j] == (if orig[j].0 == e@.0 {
                        e@
                    } else {
                        orig[j]
                    }),
                forall|j: int| i <= j < orig.len() ==> entries_view(self.entries@)[j] == orig[j],
                found == exists|j: int| 0 <= j < i && orig[j].0 == e@.0,
            decreases self.entries.len() - i,
        {
            let ghost before = self.entries@;
            if self.entries[i].valve == e.valve {
                self.entries.set(i, copy_entry(&e));
                found = true;
                assert(orig[i as int].0 == e@.0);
                assert(forall|j: int|
                    0 <= j < self.entries@.len() && j != i ==> entries_view(self.entries@)[j]
                        == entries_view(before)[j]);
            } else {
                assert(orig[i as int].0 != e@.0);
            }
            assert forall|j: int| 0 <= j < i + 1 implies entries_view(self.entries@)[j] == (if orig[j].0
                == e@.0 {
                e@
            } else {
                orig[j]
            }) by {
                if j < i {
                    assert(entries_view(before)[j] == entries_view(self.entries@)[j]);
                }
            }
            assert(found == exists|j: int| 0 <= j < i + 1 && orig[j].0 == e@.0) by {
                if exists|j: int| 0 <= j < i + 1 && orig[j].0 == e@.0 {
                    let j = choose|j: int| 0 <= j < i + 1 && orig[j].0 == e@.0;
                    if j < i {
                        assert(exists|j: int| 0 <= j < i && orig[j].0 == e@.0);
                    }
                }
            }
            i = i + 1;
        }
        if found {
            assert(self.entries() =~= insert_spec(orig, e@));
        } else {
            assert(self.entries() =~= orig);
            self.entries.push(e);
            assert(self.entries() =~= orig.push(e@));
        }
    }

    /// A valve command from the cache. Nothing happens while no relay is
    /// known. Otherwise the command replaces any outstanding one for the valve;
    /// where a best relay is known it is sent at once, through that relay, and
    /// counted as one attempt, else it waits with no attempt counted.
    pub fn submit(&mut self, valve: &String, desired_state: Option<bool>, payload: &String, relays_known: bool) -> (r: Option<Command>)
        ensures
            final(self).samples() == old(self).samples(),
            !relays_known ==> final(self).entries() == old(self).entries() && r is None,
            relays_known ==> match best_spec(old(self).samples(), valve@) {
                Some(relay) => final(self).entries() == insert_spec(
                    old(self).entries(),
                    (valve@, desired_state, payload@, 1u32),
                ) && r is Some && r->Some_0@ == valve_cmd(valve@, relay, payload@),
                None => final(self).entries() == insert_spec(
                    old(self).entries(),
                    (valve@, desired_state, payload@, 0u32),
                ) && r is None,
            },
    {
        if !relays_known {
            return None;
        }
        match self.best_relay_for(valve) {
            Some(relay) => {
                let e = ValveCommandEntry {
                    valve: valve.clone(),
                    desired_state,
                    payload: payload.clone(),
                    attempts: 1,
                };
                self.insert(e);
                Some(
                    Command {
                        command_type: CommandType::Valve,
                        mac_address: valve.clone(),
                        actuator_mac_address: relay,
                        payload: payload.clone(),
                    },
                )
            },
            None => {
                let e = ValveCommandEntry {
                    valve: valve.clone(),
                    desired_state,
                    payload: payload.clone(),
                    attempts: 0,
                };
                self.insert(e);
                None
            },
        }
    }

    /// The periodic reconciliation: each entry is stepped as `step_spec`
    /// says, against the valve states that the cache shows (`observed`, as
    /// address and state). Nothing happens while no relay is known. Returns
    /// the commands to send.
    pub fn reconcile(&mut self, observed: &Vec<(String, bool)>, relays_known: bool) -> (r: Vec<Command>)
        ensures
            final(self).samples() == old(self).samples(),
            !relays_known ==> final(self).entries() == old(self).entries() && r@.len() == 0,
            relays_known ==> ({
                let res = reconcile_spec(
                    old(self).entries(),
                    observed_view(observed@),
                    old(self).samples(),
                );
                &&& final(self).entries() == res.0
                &&& r@.map_values(|c: Command| c@) == res.1
            }),
    {
        let mut out: Vec<Command> = Vec::new();
        if !relays_known {
            return out;
        }
        let ghost ov = observed_view(observed@);
        let ghost es = self.entries();
        let mut kept: Vec<ValveCommandEntry> = Vec::new();
        let mut i: usize = 0;
        while i < self.entries.len()
            invariant
                i <= self.entries@.len(),
                es == self.entries(),
                es == old(self).entries(),
                self.samples == old(self).samples,
                ov == observed_view(observed@),
                (entries_view(kept@), out@.map_values(|c: Command| c@)) == reconcile_spec(
                    es.take(i as int),
                    ov,
                    self.samples(),
                ),
            decreases self.entries.len() - i,
        {
            assert(es.take(i as int + 1).drop_last() =~= es.take(i as int));
            let ghost k0 = entries_view(kept@);
            let ghost o0 = out@.map_values(|c: Command| c@);
            let e = &self.entries[i];
            assert(es[i as int] == e@);
            if is_converged(observed, &e.valve, e.desired_state) {
            } else if e.attempts < MAX_ATTEMPTS {
                match self.best_relay_for(&e.valve) {
                    Some(relay) => {
                        out.push(
                            Command {
                                command_type: CommandType::Valve,
                                mac_address: e.valve.clone(),
                                actuator_mac_address: relay,
                                payload: e.payload.clone(),
                            },
                        );
                        let n = ValveCommandEntry {
                            valve: e.valve.clone(),
                            desired_state: e.desired_state,
                            payload: e.payload.clone(),
                            attempts: e.attempts + 1,
                        };
                        let ghost nv = n@;
                        kept.push(n);
                        assert(entries_view(kept@) =~= k0.push(nv));
                        assert(out@.map_values(|c: Command| c@) =~= o0.push(
                            valve_cmd(e@.0, best_spec(self.samples(), e@.0)->Some_0, e@.2),
                        ));
                    },
                    None => {
                        kept.push(copy_entry(e));
                        assert(entries_view(kept@) =~= k0.push(e@));
                    },
                }
            }
            i = i + 1;
        }
        assert(es.take(es.len() as int) =~= es);
        self.entries = kept;
        out
    }
}

impl ValveArbiter {
    /// How many valve commands are outstanding.
    pub fn pending_count(&self) -> (r: usize)
        ensures
            r == self.entries().len(),
    {
        self.entries.len()
    }

    /// The attempt count of the outstanding command for `valve`, if any.
    pub fn attempts_of(&self, valve: &String) -> (r: Option<u32>)
        ensures
            match r {
                Some(a) => exists|i: int|
                    0 <= i < self.entries().len() && self.entries()[i].0 == valve@
                        && self.entries()[i].3 == a,
                None => forall|i: int|
                    0 <= i < self.entries().len() ==> self.entries()[i].0 != valve@,
            },
    {
        let mut i: usize = 0;
        while i < self.entries.len()
            invariant
                i <= self.entries@.len(),
                forall|j: int| 0 <= j < i ==> self.entries()[j].0 != valve@,
            decreases self.entries.len() - i,
        {
            assert(self.entries()[i as int] == self.entries@[i as int]@);
            if self.entries[i].valve == *valve {
                return Some(self.entries[i].attempts);
            }
            i = i + 1;
        }
        None
    }
}

} // verus!
