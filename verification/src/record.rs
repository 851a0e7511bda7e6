//! The records that two stores exchange.

use std::collections::HashMap;

use vstd::prelude::*;

verus! {

/// The identity of a machine, a UUID as an integer.
#[derive(Clone, Copy, Debug, PartialEq, Eq, Hash, Structural)]
pub struct HostId(pub u128);

/// The identity of a record, a UUID as an integer.
#[derive(Clone, Copy, Debug, PartialEq, Eq, Hash, Structural)]
pub struct RecordId(pub u128);

/// The position of a record among those of one host and tag.
pub type RecordIdx = u64;

/// The machine on which a record was made.
#[derive(Clone, Debug, PartialEq, Eq)]
pub struct Host {
    pub id: HostId,
    pub name: String,
}

/// The sealed contents of a record, with the key that opens them, itself sealed.
#[derive(Clone, Debug, PartialEq, Eq)]
pub struct EncryptedData {
    pub data: String,
    pub content_encryption_key: String,
}

/// One entry of a record store.
#[derive(Clone, Debug, PartialEq, Eq)]
pub struct Record {
    pub id: RecordId,
    pub idx: RecordIdx,
    pub host: Host,
    /// When the record was made, in nanoseconds since the Unix epoch.
    pub timestamp: u64,
    pub version: String,
    pub tag: String,
    pub data: EncryptedData,
}

/// The key of a machine, with which the keys of its records are sealed.
pub type EncryptionKey = [u8; 32];

/// A build to be run, which works records into what they are used for.
#[derive(Clone, Debug, PartialEq, Eq)]
pub struct Build {
    /// The records to work in, or `None` for all that the store holds.
    pub downloaded: Option<Vec<RecordId>>,
}

/// How far a store reaches: for each host and tag, the last index it holds.
#[derive(Clone, Debug, PartialEq, Eq)]
pub struct RecordStatus {
    pub hosts: HashMap<HostId, HashMap<String, RecordIdx>>,
}

/// The items whose mark is set, in their order.
pub open spec fn marked<T>(items: Seq<T>, marks: Seq<bool>) -> Seq<T>
    decreases items.len(),
{
    if items.len() == 0 {
        Seq::empty()
    } else {
        let rest = marked(items.drop_last(), marks.drop_last());
        if marks.last() {
            rest.push(items.last())
        } else {
            rest
        }
    }
}

/// Keeps the records whose mark is set, in their order.
pub(crate) fn keep_marked(records: Vec<Record>, marks: &Vec<bool>) -> (kept: Vec<Record>)
    requires
        records@.len() == marks@.len(),
    ensures
        kept@ == marked(records@, marks@),
{
    let ghost all = records@;
    let total: usize = marks.len();
    let mut kept: Vec<Record> = Vec::new();
    let mut i: usize = 0;
    assert(all.take(0) =~= Seq::empty());
    for record in it: records
        invariant
            it.seq() == all,
            all.len() == total,
            marks@.len() == total,
            i == it.index(),
            kept@ == marked(all.take(i as int), marks@.take(i as int)),
    {
        proof {
            assert(all.take(i + 1).drop_last() =~= all.take(i as int));
            assert(marks@.take(i + 1).drop_last() =~= marks@.take(i as int));
        }
        if marks[i] {
            kept.push(record);
        }
        i = i + 1;
    }
    assert(all.take(i as int) =~= all);
    assert(marks@.take(i as int) =~= marks@);
    kept
}

/// Whether some places are those of the marked items, in ascending order.
pub open spec fn are_marked_places<T>(places: Seq<int>, items: Seq<T>, marks: Seq<bool>) -> bool {
    &&& forall|k: int|
        0 <= k < places.len() ==> 0 <= #[trigger] places[k] < items.len() && marks[places[k]]
    &&& forall|j: int, k: int|
        0 <= j < k < places.len() ==> #[trigger] places[j] < #[trigger] places[k]
    &&& forall|i: int| 0 <= i < items.len() && #[trigger] marks[i] ==> places.contains(i)
}

/// What is kept are the items at the marked places: all of them, nothing else, and
/// in their order.
pub proof fn law_marked_items_are_those_at_marked_places<T>(
    items: Seq<T>,
    marks: Seq<bool>,
) -> (places: Seq<int>)
    requires
        items.len() == marks.len(),
    ensures
        are_marked_places(places, items, marks),
        marked(items, marks) == places.map_values(|place: int| items[place]),
    decreases items.len(),
{
    if items.len() == 0 {
        let places = Seq::<int>::empty();
        assert(marked(items, marks) =~= places.map_values(|place: int| items[place]));
        places
    } else {
        let fewer = items.drop_last();
        let before = law_marked_items_are_those_at_marked_places(fewer, marks.drop_last());
        let places = if marks.last() {
            before.push(items.len() - 1)
        } else {
            before
        };
        assert forall|i: int| 0 <= i < items.len() && #[trigger] marks[i] implies places.contains(
            i,
        ) by {
            if i < items.len() - 1 {
                assert(marks.drop_last()[i]);
                let k = choose|k: int| 0 <= k < before.len() && before[k] == i;
                assert(places[k] == i);
            } else {
                assert(places[before.len() as int] == i);
            }
        }
        assert forall|k: int| 0 <= k < before.len() implies items[#[trigger] before[k]]
            == marked(fewer, marks.drop_last())[k] by {
            assert(before.map_values(|place: int| fewer[place])[k] == fewer[before[k]]);
        }
        assert(marked(items, marks) =~= places.map_values(|place: int| items[place]));
        places
    }
}

} // verus!
