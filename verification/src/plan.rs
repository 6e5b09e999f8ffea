//! What a migration run has to do, decided from what the database reports.
//!
//! A run first reads how many records the ledger holds and, where it holds
//! none, which later migrations the live schema already shows.  From that it
//! decides which migrations to record without running them (the baseline) and
//! which to run.  The rules are pure functions here; the engine gathers their
//! inputs and carries their results out.

use std::collections::HashSet;
use vstd::prelude::*;
use crate::catalog::Migration;

verus! {

/// The test for a migration that the ledger `applied` does not hold.
pub open spec fn not_applied(applied: Set<i64>) -> spec_fn(Migration) -> bool {
    |m: Migration| !applied.contains(m.id)
}

/// The migrations of `catalog` that the ledger `applied` does not hold, in
/// catalog order.
pub open spec fn pending(catalog: Seq<Migration>, applied: Set<i64>) -> Seq<Migration> {
    catalog.filter(not_applied(applied))
}

/// The test for an id that may be recorded by detection: an id of the
/// catalog other than the first, which creates the tables and is always run.
pub open spec fn can_baseline(catalog: Seq<Migration>) -> spec_fn(i64) -> bool {
    |id: i64| 2 <= id <= catalog.len()
}

/// The migrations to record without running them: none where the ledger
/// already holds a record; otherwise the catalog entry at position `id - 1`
/// (in a valid catalog, the entry with that id) for each detected id that may
/// be recorded so, in the order of detection.
pub open spec fn baseline(catalog: Seq<Migration>, ledger_count: int, detected: Seq<i64>) -> Seq<
    Migration,
> {
    if ledger_count > 0 {
        Seq::empty()
    } else {
        let hits = detected.filter(can_baseline(catalog));
        Seq::new(hits.len(), |k: int| catalog[hits[k] - 1])
    }
}

/// The set of the ids that the ledger query yielded.
pub fn applied_set(ids: &Vec<i64>) -> (applied: HashSet<i64>)
    ensures
        applied@ == ids@.to_set(),
{
    broadcast use vstd::std_specs::hash::group_hash_axioms;

    let mut applied: HashSet<i64> = HashSet::new();
    let mut i: usize = 0;
    assert(ids@.take(0).to_set() =~= Set::<i64>::empty());
    while i < ids.len()
        invariant
            i <= ids.len(),
            applied@ == ids@.take(i as int).to_set(),
        decreases ids.len() - i,
    {
        applied.insert(ids[i]);
        proof {
            let before = ids@.take(i as int);
            let after = ids@.take(i + 1);
            assert(after =~= before.push(ids@[i as int]));
            assert forall|id: i64| after.to_set().contains(id) <==> before.to_set().insert(
                ids@[i as int],
            ).contains(id) by {
                if before.contains(id) {
                    let k = choose|k: int| 0 <= k < before.len() && before[k] == id;
                    assert(after[k] == id);
                }
                if id == ids@[i as int] {
                    assert(after[i as int] == id);
                }
                if after.contains(id) {
                    let k = choose|k: int| 0 <= k < after.len() && after[k] == id;
                    if k < i {
                        assert(before[k] == id);
                    }
                }
            }
            assert(after.to_set() =~= before.to_set().insert(ids@[i as int]));
        }
        i += 1;
    }
    assert(ids@.take(ids.len() as int) =~= ids@);
    applied
}

/// The migrations of `catalog` whose id is not among `applied`, in catalog
/// order.
pub fn pending_migrations(catalog: &Vec<Migration>, applied: &HashSet<i64>) -> (waiting: Vec<
    Migration,
>)
    ensures
        waiting@ == pending(catalog@, applied@),
{
    broadcast use vstd::std_specs::hash::group_hash_axioms;

    let ghost test = not_applied(applied@);
    let mut waiting: Vec<Migration> = Vec::new();
    let mut i: usize = 0;
    proof {
        reveal(Seq::filter);
        assert(catalog@.take(0).filter(test) =~= Seq::<Migration>::empty());
    }
    while i < catalog.len()
        invariant
            i <= catalog.len(),
            test == not_applied(applied@),
            waiting@ == catalog@.take(i as int).filter(test),
        decreases catalog.len() - i,
    {
        let m: Migration = catalog[i];
        let held = applied.contains(&m.id);
        proof {
            reveal(Seq::filter);
            let next = catalog@.take(i + 1);
            assert(next.drop_last() =~= catalog@.take(i as int));
            assert(next.last() == m);
            assert(test(m) == !held);
        }
        if !held {
            waiting.push(m);
        }
        i += 1;
    }
    assert(catalog@.take(catalog.len() as int) =~= catalog@);
    waiting
}

/// The migrations to record without running them, given the number of
/// records that the ledger holds and the ids whose effect the live schema
/// shows.
pub fn baseline_records(catalog: &Vec<Migration>, ledger_count: i64, detected: &Vec<i64>) -> (records:
    Vec<Migration>)
    ensures
        records@ == baseline(catalog@, ledger_count as int, detected@),
{
    let mut records: Vec<Migration> = Vec::new();
    if ledger_count > 0 {
        return records;
    }
    let ghost test = can_baseline(catalog@);
    let mut i: usize = 0;
    proof {
        reveal(Seq::filter);
        assert(detected@.take(0).filter(test) =~= Seq::<i64>::empty());
    }
    while i < detected.len()
        invariant
            i <= detected.len(),
            test == can_baseline(catalog@),
            records@.len() == detected@.take(i as int).filter(test).len(),
            forall|k: int|
                0 <= k < records@.len() ==> records@[k] == catalog@[detected@.take(i as int).filter(
                    test,
                )[k] - 1],
        decreases detected.len() - i,
    {
        let id: i64 = detected[i];
        proof {
            reveal(Seq::filter);
            let next = detected@.take(i + 1);
            assert(next.drop_last() =~= detected@.take(i as int));
            assert(next.last() == id);
        }
        if 2 <= id && ((id - 1) as u64) < (catalog.len() as u64) {
            assert(test(id));
            records.push(catalog[(id - 1) as usize]);
        } else {
            assert(!test(id));
        }
        i += 1;
    }
    assert(detected@.take(detected.len() as int) =~= detected@);
    assert(records@ =~= baseline(catalog@, ledger_count as int, detected@));
    records
}

} // verus!
