//! The containment matcher. The geometric predicate itself — whether an alert
//! zone's multi-polygon contains the query point — is evaluated by the caller
//! over the decoded geometry and handed in as a flag per record; this module
//! holds the filter: it keeps, in input order, exactly the records whose
//! polygon contains the point.

use vstd::prelude::*;

use crate::record::AttributeRecord;
use crate::record::RecordModel;
use crate::record::clone_record;

verus! {

/// The models of the records whose containment flag is set, in input order.
pub open spec fn matched_of(entries: Seq<(bool, RecordModel)>) -> Seq<RecordModel>
    decreases entries.len(),
{
    if entries.len() == 0 {
        Seq::empty()
    } else {
        let rest = matched_of(entries.drop_last());
        if entries.last().0 {
            rest.push(entries.last().1)
        } else {
            rest
        }
    }
}

/// The model of a flagged-entry sequence.
pub open spec fn entries_model(entries: Seq<(bool, AttributeRecord)>) -> Seq<(bool, RecordModel)> {
    entries.map_values(|p: (bool, AttributeRecord)| (p.0, p.1@))
}

/// The models of a record sequence.
pub open spec fn records_model(records: Seq<AttributeRecord>) -> Seq<RecordModel> {
    records.map_values(|r: AttributeRecord| r@)
}

/// Keeps, in input order, exactly the records whose flag is set.
pub fn match_records(entries: &Vec<(bool, AttributeRecord)>) -> (res: Vec<AttributeRecord>)
    ensures
        records_model(res@) == matched_of(entries_model(entries@)),
{
    let mut res: Vec<AttributeRecord> = Vec::new();
    proof {
        assert(entries_model(entries@.take(0)) =~= Seq::<(bool, RecordModel)>::empty());
        assert(records_model(res@) =~= matched_of(entries_model(entries@.take(0))));
    }
    let mut i: usize = 0;
    while i < entries.len()
        invariant
            0 <= i <= entries.len(),
            records_model(res@) == matched_of(entries_model(entries@.take(i as int))),
        decreases entries.len() - i,
    {
        let ghost prefix = entries_model(entries@.take(i as int));
        let ghost step = entries_model(entries@.take(i as int + 1));
        proof {
            assert(step.drop_last() =~= prefix);
            assert(step.last() == (entries@[i as int].0, entries@[i as int].1@));
        }
        if entries[i].0 {
            let rec = clone_record(&entries[i].1);
            res.push(rec);
            proof {
                assert(records_model(res@) =~= matched_of(step));
            }
        } else {
            proof {
                assert(records_model(res@) =~= matched_of(step));
            }
        }
        i += 1;
    }
    proof {
        assert(entries@.take(i as int) =~= entries@);
    }
    res
}

/// A record's model appears among the matches exactly when some entry carries
/// that model with its containment flag set: the matcher includes a polygon's
/// record in the result if and only if the containment predicate held of it.
pub proof fn lemma_matched_iff(entries: Seq<(bool, RecordModel)>, r: RecordModel)
    ensures
        matched_of(entries).contains(r) <==> exists|i: int|
            0 <= i < entries.len() && entries[i].0 && entries[i].1 == r,
    decreases entries.len(),
{
    if entries.len() == 0 {
    } else {
        lemma_matched_iff(entries.drop_last(), r);
        let rest = matched_of(entries.drop_last());
        if entries.last().0 {
            assert(matched_of(entries) == rest.push(entries.last().1));
            if matched_of(entries).contains(r) {
                if r == entries.last().1 {
                    assert(entries[entries.len() - 1].0 && entries[entries.len() - 1].1 == r);
                } else {
                    assert(rest.contains(r)) by {
                        let k = choose|k: int|
                            0 <= k < matched_of(entries).len() && matched_of(entries)[k] == r;
                        assert(rest[k] == r);
                    }
                }
            }
            if exists|i: int| 0 <= i < entries.len() && entries[i].0 && entries[i].1 == r {
                let i = choose|i: int| 0 <= i < entries.len() && entries[i].0 && entries[i].1 == r;
                if i < entries.len() - 1 {
                    assert(entries.drop_last()[i] == entries[i]);
                    assert(rest.contains(r));
                    let k = choose|k: int| 0 <= k < rest.len() && rest[k] == r;
                    assert(matched_of(entries)[k] == r);
                } else {
                    assert(matched_of(entries).last() == r);
                }
            }
        } else {
            assert(forall|i: int|
                0 <= i < entries.len() - 1 ==> entries.drop_last()[i] == entries[i]);
        }
    }
}

/// Determinism of the containment filter: a second run over the same decoded
/// archive snapshot, with the same per-record containment outcomes, yields the
/// identical match sequence.
pub proof fn lemma_matched_deterministic(
    first: Seq<(bool, RecordModel)>,
    second: Seq<(bool, RecordModel)>,
)
    requires
        first == second,
    ensures
        matched_of(first) == matched_of(second),
{
}

} // verus!
