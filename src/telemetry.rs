use vstd::prelude::*;
use crate::mapping::{MappingTable, NodeMappingView};
use crate::messages::DataPoint;
use crate::model::Measurement;
use crate::store::{record_sensor, NodeRecord, VehicleState};
use crate::text::text_eq;

verus! {

/// Whether mapping `m` names the channel that a data point from `board_id`
/// was recorded on.
pub open spec fn names_channel(m: NodeMappingView, board_id: Seq<char>, p: DataPoint) -> bool {
    m.board_id == board_id && m.channel == p.channel && m.channel_type == p.channel_type
}

/// Whether `i` is the first mapping of the list that names the point's channel.
pub open spec fn is_first_owner(
    ms: Seq<NodeMappingView>,
    board_id: Seq<char>,
    p: DataPoint,
    i: int,
) -> bool {
    &&& 0 <= i < ms.len()
    &&& names_channel(ms[i], board_id, p)
    &&& forall|k: int| 0 <= k < i ==> !names_channel(ms[k], board_id, p)
}

/// The node that a data point from `board_id` belongs to: the first mapping
/// that names its channel.
pub open spec fn point_owner(ms: Seq<NodeMappingView>, board_id: Seq<char>, p: DataPoint) -> Option<
    Seq<char>,
> {
    if exists|i: int| is_first_owner(ms, board_id, p, i) {
        Some(ms[choose|i: int| is_first_owner(ms, board_id, p, i)].text_id)
    } else {
        None
    }
}

/// The measurement of a data point, in the unit of its channel type.
pub open spec fn spec_measurement_of(p: DataPoint) -> Measurement {
    Measurement { value_bits: p.value_bits, unit: p.channel_type.spec_unit() }
}

/// The store after recording the points of one message from `board_id`, in
/// order; a point whose channel no mapping names is skipped.
pub open spec fn spec_ingest(
    v: Map<Seq<char>, NodeRecord>,
    ms: Seq<NodeMappingView>,
    board_id: Seq<char>,
    ps: Seq<DataPoint>,
) -> Map<Seq<char>, NodeRecord>
    decreases ps.len(),
{
    if ps.len() == 0 {
        v
    } else {
        let before = spec_ingest(v, ms, board_id, ps.drop_last());
        let p = ps.last();
        match point_owner(ms, board_id, p) {
            Some(id) => record_sensor(before, id, spec_measurement_of(p), p.timestamp),
            None => before,
        }
    }
}

/// How many points of one message from `board_id` no mapping owns.
pub open spec fn count_unowned(ms: Seq<NodeMappingView>, board_id: Seq<char>, ps: Seq<DataPoint>) -> nat
    decreases ps.len(),
{
    if ps.len() == 0 {
        0
    } else {
        count_unowned(ms, board_id, ps.drop_last()) + if point_owner(ms, board_id, ps.last()) is None {
            1nat
        } else {
            0nat
        }
    }
}

/// Converts a raw data point into a typed measurement, in the unit that its
/// channel type produces.
pub fn measurement_of(p: &DataPoint) -> (r: Measurement)
    ensures
        r == spec_measurement_of(*p),
{
    Measurement { value_bits: p.value_bits, unit: p.channel_type.unit() }
}

/// Finds the position of the first mapping that names the channel of a data
/// point from `board_id`.
pub fn locate(table: &MappingTable, board_id: &str, p: &DataPoint) -> (r: Option<usize>)
    ensures
        r.is_none() <==> forall|i: int| 0 <= i < table@.len() ==> !names_channel(table@[i], board_id@, *p),
        r matches Some(i) ==> is_first_owner(table@, board_id@, *p, i as int),
{
    let mut i: usize = 0;
    while i < table.len()
        invariant
            i <= table@.len(),
            forall|k: int| 0 <= k < i ==> !names_channel(table@[k], board_id@, *p),
        decreases table@.len() - i,
    {
        let m = table.get(i);
        if m.channel == p.channel && m.channel_type == p.channel_type && text_eq(
            m.board_id.as_str(),
            board_id,
        ) {
            return Some(i);
        }
        i = i + 1;
    }
    None
}

proof fn lemma_first_owner_unique(ms: Seq<NodeMappingView>, board_id: Seq<char>, p: DataPoint, i: int)
    requires
        is_first_owner(ms, board_id, p, i),
    ensures
        point_owner(ms, board_id, p) == Some(ms[i].text_id),
{
    let j = choose|j: int| is_first_owner(ms, board_id, p, j);
    assert(j == i) by {
        if j < i {
            assert(!names_channel(ms[j], board_id, p));
        } else if j > i {
            assert(!names_channel(ms[i], board_id, p));
        }
    }
}

/// Records the data points of one message from `board_id` as sensor
/// readings, in order, each under the node that owns its channel. Returns
/// how many points no mapping owns; those are skipped.
pub fn ingest(
    table: &MappingTable,
    store: &mut VehicleState,
    board_id: &str,
    points: &Vec<DataPoint>,
) -> (unmatched: usize)
    requires
        old(store).well_formed(),
    ensures
        final(store).well_formed(),
        final(store)@ == spec_ingest(old(store)@, table@, board_id@, points@),
        unmatched == count_unowned(table@, board_id@, points@),
{
    let mut unmatched: usize = 0;
    let mut i: usize = 0;
    while i < points.len()
        invariant
            i <= points@.len(),
            unmatched <= i,
            unmatched == count_unowned(table@, board_id@, points@.subrange(0, i as int)),
            store.well_formed(),
            store@ == spec_ingest(old(store)@, table@, board_id@, points@.subrange(0, i as int)),
        decreases points@.len() - i,
    {
        let p = &points[i];
        let ghost before = store@;
        assert(points@.subrange(0, i + 1).drop_last() =~= points@.subrange(0, i as int));
        assert(points@.subrange(0, i + 1).last() == *p);
        match locate(table, board_id, p) {
            Some(k) => {
                proof {
                    lemma_first_owner_unique(table@, board_id@, *p, k as int);
                }
                let m = table.get(k);
                store.update_sensor(m.text_id.as_str(), measurement_of(p), p.timestamp);
            },
            None => {
                assert(!exists|j: int| is_first_owner(table@, board_id@, *p, j));
                unmatched = unmatched + 1;
            },
        }
        i = i + 1;
    }
    assert(points@.subrange(0, points@.len() as int) =~= points@);
    unmatched
}

} // verus!
