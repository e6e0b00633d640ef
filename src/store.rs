use vstd::prelude::*;
use crate::model::{Measurement, ValveState};
use crate::text::text_eq;

verus! {

/// The last-known state of one node: a valve's state or a sensor's reading.
#[derive(Clone, Copy, Debug, PartialEq, Eq, Structural)]
pub enum Reading {
    Valve(ValveState),
    Sensor(Measurement),
}

/// What the store knows of one node: its last state and when it was recorded.
///
/// Timestamps are nanoseconds since the Unix epoch.
#[derive(Clone, Copy, Debug, PartialEq, Eq, Structural)]
pub struct NodeRecord {
    pub reading: Reading,
    pub updated_at: u64,
}

struct Entry {
    text_id: String,
    record: NodeRecord,
}

/// The latest-value cache of every node's state, keyed by text identifier.
///
/// A node is either a valve or a sensor: recording a valve state for a node
/// replaces its sensor reading and the other way round.
pub struct VehicleState {
    entries: Vec<Entry>,
    records: Ghost<Map<Seq<char>, NodeRecord>>,
}

/// Records a sensor reading for `id`, the mathematical counterpart of
/// [`VehicleState::update_sensor`].
pub open spec fn record_sensor(
    v: Map<Seq<char>, NodeRecord>,
    id: Seq<char>,
    m: Measurement,
    t: u64,
) -> Map<Seq<char>, NodeRecord> {
    v.insert(id, NodeRecord { reading: Reading::Sensor(m), updated_at: t })
}

/// Records a valve state for `id`, the mathematical counterpart of
/// [`VehicleState::update_valve`].
pub open spec fn record_valve(
    v: Map<Seq<char>, NodeRecord>,
    id: Seq<char>,
    s: ValveState,
    t: u64,
) -> Map<Seq<char>, NodeRecord> {
    v.insert(id, NodeRecord { reading: Reading::Valve(s), updated_at: t })
}

/// Whether recording at time `t` for `id` goes back in time.
pub open spec fn is_out_of_order(v: Map<Seq<char>, NodeRecord>, id: Seq<char>, t: u64) -> bool {
    v.contains_key(id) && t < v[id].updated_at
}

/// The valve states of the store, by node.
pub open spec fn valve_states(v: Map<Seq<char>, NodeRecord>) -> Map<Seq<char>, ValveState> {
    Map::new(
        |k: Seq<char>| v.contains_key(k) && v[k].reading is Valve,
        |k: Seq<char>| v[k].reading->Valve_0,
    )
}

/// The sensor readings of the store, by node.
pub open spec fn sensor_readings(v: Map<Seq<char>, NodeRecord>) -> Map<Seq<char>, Measurement> {
    Map::new(
        |k: Seq<char>| v.contains_key(k) && v[k].reading is Sensor,
        |k: Seq<char>| v[k].reading->Sensor_0,
    )
}

/// The time of the last update of each node.
pub open spec fn update_times(v: Map<Seq<char>, NodeRecord>) -> Map<Seq<char>, u64> {
    Map::new(|k: Seq<char>| v.contains_key(k), |k: Seq<char>| v[k].updated_at)
}

impl View for VehicleState {
    type V = Map<Seq<char>, NodeRecord>;

    closed spec fn view(&self) -> Map<Seq<char>, NodeRecord> {
        self.records@
    }
}

impl VehicleState {
    /// The store's invariant: one entry per node, in step with its view.
    pub closed spec fn well_formed(&self) -> bool {
        &&& forall|i: int, j: int|
            0 <= i < j < self.entries@.len() ==> self.entries@[i].text_id@
                != self.entries@[j].text_id@
        &&& forall|i: int|
            0 <= i < self.entries@.len() ==> #[trigger] self.records@.contains_key(
                self.entries@[i].text_id@,
            ) && self.records@[self.entries@[i].text_id@] == self.entries@[i].record
        &&& forall|k: Seq<char>|
            #[trigger] self.records@.contains_key(k) ==> exists|i: int|
                0 <= i < self.entries@.len() && self.entries@[i].text_id@ == k
    }

    /// Constructs a new, empty store.
    pub fn new() -> (r: VehicleState)
        ensures
            r@ == Map::<Seq<char>, NodeRecord>::empty(),
            r.well_formed(),
    {
        VehicleState { entries: Vec::new(), records: Ghost(Map::empty()) }
    }

    /// Forgets every node.
    pub fn reset(&mut self)
        ensures
            final(self)@ == Map::<Seq<char>, NodeRecord>::empty(),
            final(self).well_formed(),
    {
        self.entries = Vec::new();
        self.records = Ghost(Map::empty());
    }

    fn find(&self, text_id: &str) -> (r: Option<usize>)
        requires
            self.well_formed(),
        ensures
            r.is_none() <==> !self@.contains_key(text_id@),
            r matches Some(i) ==> i < self.entries@.len() && self.entries@[i as int].text_id@
                == text_id@,
    {
        let mut i: usize = 0;
        while i < self.entries.len()
            invariant
                self.well_formed(),
                i <= self.entries@.len(),
                forall|k: int| 0 <= k < i ==> self.entries@[k].text_id@ != text_id@,
            decreases self.entries@.len() - i,
        {
            if text_eq(self.entries[i].text_id.as_str(), text_id) {
                return Some(i);
            }
            i = i + 1;
        }
        None
    }

    /// Everything the store knows of `text_id`, if anything.
    pub fn get(&self, text_id: &str) -> (r: Option<NodeRecord>)
        requires
            self.well_formed(),
        ensures
            r == (if self@.contains_key(text_id@) {
                Some(self@[text_id@])
            } else {
                None
            }),
    {
        match self.find(text_id) {
            Some(i) => Some(self.entries[i].record),
            None => None,
        }
    }

    /// The latest reading of the sensor `text_id`, or `None` if none was
    /// recorded.
    pub fn get_sensor(&self, text_id: &str) -> (r: Option<Measurement>)
        requires
            self.well_formed(),
        ensures
            r == (if sensor_readings(self@).contains_key(text_id@) {
                Some(sensor_readings(self@)[text_id@])
            } else {
                None
            }),
    {
        match self.get(text_id) {
            Some(NodeRecord { reading: Reading::Sensor(m), .. }) => Some(m),
            _ => None,
        }
    }

    /// The latest state of the valve `text_id`, or `None` if none was
    /// recorded.
    pub fn get_valve(&self, text_id: &str) -> (r: Option<ValveState>)
        requires
            self.well_formed(),
        ensures
            r == (if valve_states(self@).contains_key(text_id@) {
                Some(valve_states(self@)[text_id@])
            } else {
                None
            }),
    {
        match self.get(text_id) {
            Some(NodeRecord { reading: Reading::Valve(s), .. }) => Some(s),
            _ => None,
        }
    }

    /// The time of the last update of `text_id`, or `None` if none was
    /// recorded.
    pub fn get_update_time(&self, text_id: &str) -> (r: Option<u64>)
        requires
            self.well_formed(),
        ensures
            r == (if update_times(self@).contains_key(text_id@) {
                Some(update_times(self@)[text_id@])
            } else {
                None
            }),
    {
        match self.get(text_id) {
            Some(rec) => Some(rec.updated_at),
            None => None,
        }
    }

    /// Every node the store knows of, with its record, one entry per node.
    pub fn snapshot(&self) -> (r: Vec<(String, NodeRecord)>)
        requires
            self.well_formed(),
        ensures
            forall|i: int, j: int| 0 <= i < j < r@.len() ==> r@[i].0@ != r@[j].0@,
            forall|i: int|
                0 <= i < r@.len() ==> self@.contains_key(#[trigger] r@[i].0@) && self@[r@[i].0@]
                    == r@[i].1,
            forall|k: Seq<char>|
                #[trigger] self@.contains_key(k) ==> exists|i: int| 0 <= i < r@.len() && r@[i].0@ == k,
    {
        let mut r: Vec<(String, NodeRecord)> = Vec::new();
        let mut i: usize = 0;
        while i < self.entries.len()
            invariant
                self.well_formed(),
                i <= self.entries@.len(),
                r@.len() == i,
                forall|k: int|
                    0 <= k < i ==> r@[k].0@ == self.entries@[k].text_id@ && r@[k].1
                        == self.entries@[k].record,
            decreases self.entries@.len() - i,
        {
            r.push((self.entries[i].text_id.clone(), self.entries[i].record));
            i = i + 1;
        }
        assert forall|k: Seq<char>| #[trigger] self@.contains_key(k) implies exists|j: int|
            0 <= j < r@.len() && r@[j].0@ == k by {
            let j = choose|j: int| 0 <= j < self.entries@.len() && self.entries@[j].text_id@ == k;
            assert(r@[j].0@ == k);
        }
        assert forall|a: int| 0 <= a < r@.len() implies self@.contains_key(#[trigger] r@[a].0@)
            && self@[r@[a].0@] == r@[a].1 by {
            assert(self.records@.contains_key(self.entries@[a].text_id@));
        }
        r
    }

    fn put(&mut self, text_id: &str, record: NodeRecord) -> (out_of_order: bool)
        requires
            old(self).well_formed(),
        ensures
            final(self).well_formed(),
            final(self)@ == old(self)@.insert(text_id@, record),
            out_of_order == is_out_of_order(old(self)@, text_id@, record.updated_at),
    {
        let ghost id = text_id@;
        match self.find(text_id) {
            Some(i) => {
                let late = record.updated_at < self.entries[i].record.updated_at;
                let entry = Entry { text_id: text_id.to_owned(), record };
                self.entries.set(i, entry);
                self.records = Ghost(self.records@.insert(id, record));
                let ghost n = old(self).entries@.len();
                assert(forall|j: int|
                    0 <= j < n && j != i ==> self.entries@[j] == old(self).entries@[j]);
                assert(self.entries@[i as int].text_id@ == old(self).entries@[i as int].text_id@);
                assert forall|a: int|
                    0 <= a < self.entries@.len() implies #[trigger] self.records@.contains_key(
                    self.entries@[a].text_id@,
                ) && self.records@[self.entries@[a].text_id@] == self.entries@[a].record by {
                    if a != i {
                        assert(old(self).records@.contains_key(old(self).entries@[a].text_id@));
                    }
                }
                assert forall|k: Seq<char>| #[trigger]
                    self.records@.contains_key(k) implies exists|j: int|
                    0 <= j < self.entries@.len() && self.entries@[j].text_id@ == k by {
                    if k == id {
                        assert(self.entries@[i as int].text_id@ == k);
                    } else {
                        assert(old(self).records@.contains_key(k));
                        let j = choose|j: int|
                            0 <= j < old(self).entries@.len() && old(self).entries@[j].text_id@
                                == k;
                        assert(self.entries@[j].text_id@ == k);
                    }
                }
                late
            },
            None => {
                let entry = Entry { text_id: text_id.to_owned(), record };
                self.entries.push(entry);
                self.records = Ghost(self.records@.insert(id, record));
                let ghost n = old(self).entries@.len();
                assert(forall|j: int| 0 <= j < n ==> self.entries@[j] == old(self).entries@[j]);
                assert forall|k: Seq<char>| #[trigger]
                    self.records@.contains_key(k) implies exists|j: int|
                    0 <= j < self.entries@.len() && self.entries@[j].text_id@ == k by {
                    if k == id {
                        assert(self.entries@[n as int].text_id@ == k);
                    } else {
                        assert(old(self).records@.contains_key(k));
                        let j = choose|j: int|
                            0 <= j < old(self).entries@.len() && old(self).entries@[j].text_id@
                                == k;
                        assert(self.entries@[j].text_id@ == k);
                    }
                }
                assert forall|a: int|
                    0 <= a < self.entries@.len() implies #[trigger] self.records@.contains_key(
                    self.entries@[a].text_id@,
                ) && self.records@[self.entries@[a].text_id@] == self.entries@[a].record by {
                    if a < n {
                        assert(old(self).records@.contains_key(old(self).entries@[a].text_id@));
                    }
                }
                false
            },
        }
    }

    /// Records a sensor reading taken at `timestamp`, overwriting what was
    /// stored for `text_id`. A reading older than the stored one is still
    /// recorded, and flagged by returning `true`.
    pub fn update_sensor(&mut self, text_id: &str, measurement: Measurement, timestamp: u64) -> (out_of_order: bool)
        requires
            old(self).well_formed(),
        ensures
            final(self).well_formed(),
            final(self)@ == record_sensor(old(self)@, text_id@, measurement, timestamp),
            out_of_order == is_out_of_order(old(self)@, text_id@, timestamp),
    {
        self.put(text_id, NodeRecord { reading: Reading::Sensor(measurement), updated_at: timestamp })
    }

    /// Records a valve state reported at `timestamp`, overwriting what was
    /// stored for `text_id`. A state older than the stored one is still
    /// recorded, and flagged by returning `true`.
    pub fn update_valve(&mut self, text_id: &str, state: ValveState, timestamp: u64) -> (out_of_order: bool)
        requires
            old(self).well_formed(),
        ensures
            final(self).well_formed(),
            final(self)@ == record_valve(old(self)@, text_id@, state, timestamp),
            out_of_order == is_out_of_order(old(self)@, text_id@, timestamp),
    {
        self.put(text_id, NodeRecord { reading: Reading::Valve(state), updated_at: timestamp })
    }
}

/// Applies sensor updates `(text_id, measurement, timestamp)` in the order
/// they were submitted.
pub open spec fn apply_sensor_updates(
    v: Map<Seq<char>, NodeRecord>,
    ups: Seq<(Seq<char>, Measurement, u64)>,
) -> Map<Seq<char>, NodeRecord>
    decreases ups.len(),
{
    if ups.len() == 0 {
        v
    } else {
        let u = ups.last();
        record_sensor(apply_sensor_updates(v, ups.drop_last()), u.0, u.1, u.2)
    }
}

/// After a run of sensor updates, a node holds what the last update for it
/// recorded.
pub proof fn lemma_last_update_wins(
    v: Map<Seq<char>, NodeRecord>,
    ups: Seq<(Seq<char>, Measurement, u64)>,
    j: int,
)
    requires
        0 <= j < ups.len(),
        forall|k: int| j < k < ups.len() ==> ups[k].0 != ups[j].0,
    ensures
        apply_sensor_updates(v, ups).contains_key(ups[j].0),
        apply_sensor_updates(v, ups)[ups[j].0] == (NodeRecord {
            reading: Reading::Sensor(ups[j].1),
            updated_at: ups[j].2,
        }),
    decreases ups.len(),
{
    if j < ups.len() - 1 {
        let rest = ups.drop_last();
        assert forall|k: int| j < k < rest.len() implies rest[k].0 != rest[j].0 by {
            assert(rest[k] == ups[k]);
        }
        lemma_last_update_wins(v, rest, j);
        assert(rest[j] == ups[j]);
    }
}

/// When one caller submits the updates of a sensor in time order, the store
/// ends up holding, for that sensor, the measurement of the update with the
/// greatest timestamp (the later one among equal timestamps), and that
/// timestamp.
pub proof fn lemma_greatest_timestamp_wins(
    v: Map<Seq<char>, NodeRecord>,
    ups: Seq<(Seq<char>, Measurement, u64)>,
    id: Seq<char>,
    j: int,
)
    requires
        forall|a: int, b: int|
            0 <= a < b < ups.len() && ups[a].0 == id && ups[b].0 == id ==> ups[a].2 <= ups[b].2,
        0 <= j < ups.len(),
        ups[j].0 == id,
        forall|k: int| 0 <= k < ups.len() && ups[k].0 == id ==> ups[k].2 <= ups[j].2,
        forall|k: int| j < k < ups.len() && ups[k].0 == id ==> ups[k].2 < ups[j].2,
    ensures
        sensor_readings(apply_sensor_updates(v, ups)).contains_key(id),
        sensor_readings(apply_sensor_updates(v, ups))[id] == ups[j].1,
        update_times(apply_sensor_updates(v, ups))[id] == ups[j].2,
{
    assert forall|k: int| j < k < ups.len() implies ups[k].0 != ups[j].0 by {
        if ups[k].0 == id {
            assert(ups[j].2 <= ups[k].2);
        }
    }
    lemma_last_update_wins(v, ups, j);
}

/// Every node in the store is either a valve or a sensor: it has an update
/// time exactly when it has a valve state or a sensor reading, and never both.
pub proof fn lemma_update_time_iff_one_kind(v: Map<Seq<char>, NodeRecord>, k: Seq<char>)
    ensures
        update_times(v).contains_key(k) <==> (valve_states(v).contains_key(k)
            != sensor_readings(v).contains_key(k)),
{
}

} // verus!
