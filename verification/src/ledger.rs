//! The ledger of applied migrations as a mathematical sequence of ids, what
//! one run of the engine makes of it, and what that guarantees.
//!
//! `run_outcome` describes a run in which every statement succeeded and the
//! transaction was committed: it composes the rules by which the engine
//! decides, taking each record that the engine inserts as a record that the
//! ledger then holds.  That the database engine keeps what it is handed is
//! not proved here.  A run that fails rolls back and leaves the ledger as it
//! was.

use vstd::prelude::*;
use crate::catalog::{BaselineProbe, Migration, catalog_valid, ids_of};
use crate::migrations::{MigrationReport, follows_the_rules};
use crate::plan::{baseline, can_baseline, not_applied, pending};

verus! {

/// What a committed run did.
pub struct RunOutcome {
    /// Recorded without being run, in the order of recording.
    pub baselined: Seq<Migration>,
    /// Run and recorded, in the order of running.
    pub executed: Seq<Migration>,
    /// The ids of the ledger's records after the run, oldest first.
    pub ledger: Seq<i64>,
}

/// The outcome of a committed run over `catalog` on a database whose ledger
/// holds the ids `ledger` and whose schema shows the effects of the
/// migrations `detected`.
pub open spec fn run_outcome(catalog: Seq<Migration>, ledger: Seq<i64>, detected: Seq<i64>) -> RunOutcome {
    let baselined = baseline(catalog, ledger.len() as int, detected);
    let recorded = ledger + ids_of(baselined);
    let executed = pending(catalog, recorded.to_set());
    RunOutcome { baselined, executed, ledger: recorded + ids_of(executed) }
}

/// A report of the engine is the model's outcome, where the engine kept what
/// it was handed: where the count that the run read is the length of the
/// ledger before it, and the ids that it read after the baseline are those
/// of that ledger together with what the baseline recorded, the run recorded
/// and ran exactly what `run_outcome` says.
pub proof fn law_report_is_the_outcome(
    report: MigrationReport,
    catalog: Seq<Migration>,
    probes: Seq<BaselineProbe>,
    ledger: Seq<i64>,
)
    requires
        follows_the_rules(report, catalog, probes),
        report.ledger_count == ledger.len(),
        report.applied@.to_set() == (ledger + report.baselined@).to_set(),
    ensures
        report.baselined@ == ids_of(run_outcome(catalog, ledger, report.detected@).baselined),
        report.executed@ == ids_of(run_outcome(catalog, ledger, report.detected@).executed),
        run_outcome(catalog, ledger, report.detected@).ledger == ledger + report.baselined@
            + report.executed@,
{
}

/// A filter that every element passes keeps the sequence.
proof fn lemma_filter_keeps_all<A>(s: Seq<A>, test: spec_fn(A) -> bool)
    requires
        forall|i: int| 0 <= i < s.len() ==> test(#[trigger] s[i]),
    ensures
        s.filter(test) == s,
    decreases s.len(),
{
    reveal(Seq::filter);
    if s.len() > 0 {
        lemma_filter_keeps_all(s.drop_last(), test);
        assert(s.drop_last().push(s.last()) =~= s);
    }
}

/// A filter that no element passes leaves nothing.
proof fn lemma_filter_keeps_none<A>(s: Seq<A>, test: spec_fn(A) -> bool)
    requires
        forall|i: int| 0 <= i < s.len() ==> !test(#[trigger] s[i]),
    ensures
        s.filter(test) == Seq::<A>::empty(),
    decreases s.len(),
{
    reveal(Seq::filter);
    if s.len() > 0 {
        lemma_filter_keeps_none(s.drop_last(), test);
    }
}

/// A filter keeps only elements of the sequence that pass, keeps each of
/// them, and keeps a sequence without repetition free of repetition.
proof fn lemma_filter_selects<A>(s: Seq<A>, test: spec_fn(A) -> bool)
    ensures
        forall|k: int|
            0 <= k < s.filter(test).len() ==> test(#[trigger] s.filter(test)[k]) && s.contains(
                s.filter(test)[k],
            ),
        forall|i: int| 0 <= i < s.len() && test(s[i]) ==> s.filter(test).contains(#[trigger] s[i]),
        s.no_duplicates() ==> s.filter(test).no_duplicates(),
    decreases s.len(),
{
    reveal(Seq::filter);
    if s.len() > 0 {
        let front = s.drop_last();
        let kept = front.filter(test);
        lemma_filter_selects(front, test);
        let out = s.filter(test);
        assert forall|k: int| 0 <= k < out.len() implies test(#[trigger] out[k]) && s.contains(
            out[k],
        ) by {
            if k < kept.len() {
                assert(out[k] == kept[k]);
                assert(front.contains(kept[k]));
                let i = choose|i: int| 0 <= i < front.len() && front[i] == kept[k];
                assert(s[i] == out[k]);
            } else {
                assert(out[k] == s[s.len() - 1]);
            }
        }
        assert forall|i: int| 0 <= i < s.len() && test(s[i]) implies out.contains(
            #[trigger] s[i],
        ) by {
            if i < front.len() {
                assert(front[i] == s[i]);
                assert(kept.contains(front[i]));
                let k = choose|k: int| 0 <= k < kept.len() && kept[k] == front[i];
                assert(out[k] == s[i]);
            } else {
                assert(out[out.len() - 1] == s[i]);
            }
        }
        if s.no_duplicates() {
            assert(front.no_duplicates());
            assert forall|j: int, k: int| 0 <= j < out.len() && 0 <= k < out.len() && j != k implies out[j]
                != out[k] by {
                if j < kept.len() && k < kept.len() {
                    assert(out[j] == kept[j] && out[k] == kept[k]);
                } else {
                    let inner = if j < kept.len() { j } else { k };
                    assert(out[inner] == kept[inner]);
                    assert(front.contains(kept[inner]));
                    let i = choose|i: int| 0 <= i < front.len() && front[i] == kept[inner];
                    assert(s[i] != s[s.len() - 1]);
                }
            }
        }
    }
}

/// In a valid catalog the ids are pairwise different, so the ids of pending
/// migrations are too; every pending id is an id of the catalog that the
/// ledger lacks, and every such id is pending.
proof fn lemma_pending_ids(catalog: Seq<Migration>, applied: Set<i64>)
    requires
        catalog_valid(catalog),
    ensures
        ids_of(pending(catalog, applied)).no_duplicates(),
        forall|k: int|
            0 <= k < pending(catalog, applied).len() ==> !applied.contains(
                #[trigger] ids_of(pending(catalog, applied))[k],
            ) && ids_of(catalog).contains(ids_of(pending(catalog, applied))[k]),
        forall|i: int|
            0 <= i < catalog.len() && !applied.contains(catalog[i].id) ==> ids_of(
                pending(catalog, applied),
            ).contains(#[trigger] ids_of(catalog)[i]),
{
    let test = not_applied(applied);
    let waiting = pending(catalog, applied);
    let waiting_ids = ids_of(waiting);
    lemma_filter_selects(catalog, test);
    assert(catalog.no_duplicates()) by {
        assert forall|i: int, j: int| 0 <= i < catalog.len() && 0 <= j < catalog.len() && i != j implies catalog[i]
            != catalog[j] by {
            assert(catalog[i].id == i + 1 && catalog[j].id == j + 1);
        }
    }
    assert forall|k: int| 0 <= k < waiting.len() implies !applied.contains(#[trigger] waiting_ids[k])
        && ids_of(catalog).contains(waiting_ids[k]) by {
        assert(test(waiting[k]));
        assert(catalog.contains(waiting[k]));
        let i = choose|i: int| 0 <= i < catalog.len() && catalog[i] == waiting[k];
        assert(ids_of(catalog)[i] == waiting_ids[k]);
    }
    assert forall|j: int, k: int| 0 <= j < waiting_ids.len() && 0 <= k < waiting_ids.len() && j != k implies waiting_ids[j]
        != waiting_ids[k] by {
        assert(catalog.contains(waiting[j]) && catalog.contains(waiting[k]));
        let a = choose|a: int| 0 <= a < catalog.len() && catalog[a] == waiting[j];
        let b = choose|b: int| 0 <= b < catalog.len() && catalog[b] == waiting[k];
        assert(waiting[j] != waiting[k]);
        assert(catalog[a].id == a + 1 && catalog[b].id == b + 1);
    }
    assert forall|i: int| 0 <= i < catalog.len() && !applied.contains(catalog[i].id) implies waiting_ids.contains(
        #[trigger] ids_of(catalog)[i],
    ) by {
        assert(test(catalog[i]));
        assert(waiting.contains(catalog[i]));
        let k = choose|k: int| 0 <= k < waiting.len() && waiting[k] == catalog[i];
        assert(waiting_ids[k] == ids_of(catalog)[i]);
    }
}

/// In a valid catalog the ids of the baseline are the detected ids that may
/// be recorded by detection, in the order of detection.
proof fn lemma_baseline_ids(catalog: Seq<Migration>, detected: Seq<i64>)
    requires
        catalog_valid(catalog),
    ensures
        ids_of(baseline(catalog, 0, detected)) == detected.filter(can_baseline(catalog)),
{
    let hits = detected.filter(can_baseline(catalog));
    lemma_filter_selects(detected, can_baseline(catalog));
    assert forall|k: int| 0 <= k < hits.len() implies ids_of(baseline(catalog, 0, detected))[k]
        == hits[k] by {
        assert(can_baseline(catalog)(hits[k]));
        assert(catalog[hits[k] - 1].id == hits[k]);
    }
    assert(ids_of(baseline(catalog, 0, detected)) =~= hits);
}

/// A run on a database that holds no record and shows no migration's effect
/// runs the whole catalog in order and leaves exactly one record for each
/// entry: the ledger's ids are the catalog's ids.
pub proof fn law_fresh_run_records_catalog(catalog: Seq<Migration>)
    requires
        catalog_valid(catalog),
    ensures
        run_outcome(catalog, Seq::empty(), Seq::empty()).baselined == Seq::<Migration>::empty(),
        run_outcome(catalog, Seq::empty(), Seq::empty()).executed == catalog,
        run_outcome(catalog, Seq::empty(), Seq::empty()).ledger == ids_of(catalog),
        ids_of(catalog).no_duplicates(),
{
    let none = Seq::<i64>::empty();
    lemma_filter_keeps_none(none, can_baseline(catalog));
    let baselined = baseline(catalog, 0, none);
    assert(baselined =~= Seq::<Migration>::empty());
    let recorded = none + ids_of(baselined);
    assert(recorded =~= none);
    assert(recorded.to_set() =~= Set::<i64>::empty());
    lemma_filter_keeps_all(catalog, not_applied(recorded.to_set()));
    assert(recorded + ids_of(catalog) =~= ids_of(catalog));
    lemma_pending_ids(catalog, Set::<i64>::empty());
}

/// Whatever a run found, the ledger it leaves holds every id of the catalog.
proof fn lemma_run_covers_catalog(catalog: Seq<Migration>, ledger: Seq<i64>, detected: Seq<i64>)
    requires
        catalog_valid(catalog),
    ensures
        forall|i: int|
            0 <= i < catalog.len() ==> run_outcome(catalog, ledger, detected).ledger.contains(
                (#[trigger] catalog[i]).id,
            ),
{
    let out = run_outcome(catalog, ledger, detected);
    let recorded = ledger + ids_of(out.baselined);
    lemma_pending_ids(catalog, recorded.to_set());
    assert forall|i: int| 0 <= i < catalog.len() implies out.ledger.contains(
        (#[trigger] catalog[i]).id,
    ) by {
        if recorded.to_set().contains(catalog[i].id) {
            assert(recorded.contains(catalog[i].id));
            let k = choose|k: int| 0 <= k < recorded.len() && recorded[k] == catalog[i].id;
            assert(out.ledger[k] == catalog[i].id);
        } else {
            assert(ids_of(out.executed).contains(ids_of(catalog)[i]));
            let k = choose|k: int|
                0 <= k < ids_of(out.executed).len() && ids_of(out.executed)[k] == catalog[i].id;
            assert(out.ledger[recorded.len() + k] == catalog[i].id);
        }
    }
}

/// Running the engine again right after a committed run does nothing: it
/// records nothing, runs no migration, so leaves the schema alone, and the
/// ledger keeps its records, whatever either run detected.
pub proof fn law_rerun_changes_nothing(
    catalog: Seq<Migration>,
    ledger: Seq<i64>,
    detected: Seq<i64>,
    detected_again: Seq<i64>,
)
    requires
        catalog_valid(catalog),
    ensures
        run_outcome(
            catalog,
            run_outcome(catalog, ledger, detected).ledger,
            detected_again,
        ).baselined == Seq::<Migration>::empty(),
        run_outcome(
            catalog,
            run_outcome(catalog, ledger, detected).ledger,
            detected_again,
        ).executed == Seq::<Migration>::empty(),
        run_outcome(catalog, run_outcome(catalog, ledger, detected).ledger, detected_again).ledger
            == run_outcome(catalog, ledger, detected).ledger,
{
    let first = run_outcome(catalog, ledger, detected);
    let second = run_outcome(catalog, first.ledger, detected_again);
    lemma_run_covers_catalog(catalog, ledger, detected);
    assert(second.baselined =~= Seq::<Migration>::empty()) by {
        if first.ledger.len() == 0 {
            if catalog.len() > 0 {
                assert(first.ledger.contains(catalog[0].id));
            }
            assert forall|i: int| 0 <= i < detected_again.len() implies !can_baseline(catalog)(
                #[trigger] detected_again[i],
            ) by {}
            lemma_filter_keeps_none(detected_again, can_baseline(catalog));
        }
    }
    let recorded = first.ledger + ids_of(second.baselined);
    assert(recorded =~= first.ledger);
    assert forall|i: int| 0 <= i < catalog.len() implies !not_applied(recorded.to_set())(
        #[trigger] catalog[i],
    ) by {
        assert(first.ledger.contains(catalog[i].id));
    }
    lemma_filter_keeps_none(catalog, not_applied(recorded.to_set()));
    assert(recorded + ids_of(second.executed) =~= first.ledger);
}

/// A run right after a committed run reports that it did nothing, where the
/// engine kept what the first run handed it: where each run read the ledger
/// that stood before it, the second recorded nothing and ran no migration.
pub proof fn law_second_report_is_empty(
    first: MigrationReport,
    second: MigrationReport,
    catalog: Seq<Migration>,
    probes: Seq<BaselineProbe>,
    ledger: Seq<i64>,
)
    requires
        catalog_valid(catalog),
        follows_the_rules(first, catalog, probes),
        follows_the_rules(second, catalog, probes),
        first.ledger_count == ledger.len(),
        first.applied@.to_set() == (ledger + first.baselined@).to_set(),
        second.ledger_count == (ledger + first.baselined@ + first.executed@).len(),
        second.applied@.to_set() == (ledger + first.baselined@ + first.executed@
            + second.baselined@).to_set(),
    ensures
        second.baselined@ == Seq::<i64>::empty(),
        second.executed@ == Seq::<i64>::empty(),
{
    let between = ledger + first.baselined@ + first.executed@;
    law_report_is_the_outcome(first, catalog, probes, ledger);
    law_report_is_the_outcome(second, catalog, probes, between);
    law_rerun_changes_nothing(catalog, ledger, first.detected@, second.detected@);
    assert(ids_of(Seq::<Migration>::empty()) =~= Seq::<i64>::empty());
}

/// A committed run never records an id twice: where the ledger held no id
/// twice and no id was detected twice, the ledger it leaves holds no id
/// twice.  It holds what the ledger held, what was recorded by detection and
/// every id of the catalog, and nothing else; and no migration is run whose
/// id the ledger held or that was recorded by detection.
pub proof fn law_run_records_each_once(catalog: Seq<Migration>, ledger: Seq<i64>, detected: Seq<i64>)
    requires
        catalog_valid(catalog),
        ledger.no_duplicates(),
        detected.no_duplicates(),
    ensures
        run_outcome(catalog, ledger, detected).ledger.no_duplicates(),
        run_outcome(catalog, ledger, detected).ledger.to_set() == ledger.to_set().union(
            ids_of(run_outcome(catalog, ledger, detected).baselined).to_set(),
        ).union(ids_of(catalog).to_set()),
        forall|k: int|
            0 <= k < run_outcome(catalog, ledger, detected).executed.len() ==> {
                let id = (#[trigger] run_outcome(catalog, ledger, detected).executed[k]).id;
                !ledger.contains(id) && !ids_of(
                    run_outcome(catalog, ledger, detected).baselined,
                ).contains(id)
            },
{
    let out = run_outcome(catalog, ledger, detected);
    let marked = ids_of(out.baselined);
    let recorded = ledger + marked;
    let ran = ids_of(out.executed);
    assert(recorded.no_duplicates()) by {
        if ledger.len() > 0 {
            assert(marked =~= Seq::<i64>::empty());
            assert(recorded =~= ledger);
        } else {
            lemma_baseline_ids(catalog, detected);
            lemma_filter_selects(detected, can_baseline(catalog));
            assert(recorded =~= marked);
        }
    }
    lemma_pending_ids(catalog, recorded.to_set());
    assert forall|i: int, j: int| 0 <= i < recorded.len() && 0 <= j < ran.len() implies recorded[i]
        != ran[j] by {
        assert(recorded.to_set().contains(recorded[i]));
    }
    vstd::seq_lib::lemma_no_dup_in_concat(recorded, ran);
    lemma_run_covers_catalog(catalog, ledger, detected);
    let all = ledger.to_set().union(marked.to_set()).union(ids_of(catalog).to_set());
    assert forall|id: i64| out.ledger.to_set().contains(id) <==> all.contains(id) by {
        if out.ledger.contains(id) {
            let k = choose|k: int| 0 <= k < out.ledger.len() && out.ledger[k] == id;
            if k < ledger.len() {
                assert(ledger[k] == id);
            } else if k < recorded.len() {
                assert(marked[k - ledger.len()] == id);
            } else {
                assert(ran[k - recorded.len()] == id);
                assert(ids_of(catalog).contains(id));
            }
        }
        if ledger.contains(id) {
            let k = choose|k: int| 0 <= k < ledger.len() && ledger[k] == id;
            assert(out.ledger[k] == id);
        }
        if marked.contains(id) {
            let k = choose|k: int| 0 <= k < marked.len() && marked[k] == id;
            assert(out.ledger[ledger.len() + k] == id);
        }
        if ids_of(catalog).contains(id) {
            let i = choose|i: int| 0 <= i < catalog.len() && ids_of(catalog)[i] == id;
            assert(out.ledger.contains(catalog[i].id));
        }
    }
    assert(out.ledger.to_set() =~= all);
    assert forall|k: int| 0 <= k < out.executed.len() implies {
        let id = (#[trigger] out.executed[k]).id;
        !ledger.contains(id) && !marked.contains(id)
    } by {
        let id = out.executed[k].id;
        assert(ran[k] == id);
        assert(!recorded.to_set().contains(id));
        if ledger.contains(id) {
            let i = choose|i: int| 0 <= i < ledger.len() && ledger[i] == id;
            assert(recorded[i] == id);
        }
        if marked.contains(id) {
            let i = choose|i: int| 0 <= i < marked.len() && marked[i] == id;
            assert(recorded[ledger.len() + i] == id);
        }
    }
}

/// On a database without records whose schema already shows a later
/// migration's effect, a committed run records that migration without
/// running it, so its column is not added again, and the ledger holds its id
/// exactly once.
pub proof fn law_detected_migration_is_not_rerun(catalog: Seq<Migration>, detected: Seq<i64>, id: i64)
    requires
        catalog_valid(catalog),
        detected.no_duplicates(),
        detected.contains(id),
        2 <= id <= catalog.len(),
    ensures
        ids_of(run_outcome(catalog, Seq::empty(), detected).baselined).contains(id),
        !ids_of(run_outcome(catalog, Seq::empty(), detected).executed).contains(id),
        run_outcome(catalog, Seq::empty(), detected).ledger.contains(id),
        run_outcome(catalog, Seq::empty(), detected).ledger.no_duplicates(),
{
    let none = Seq::<i64>::empty();
    let out = run_outcome(catalog, none, detected);
    lemma_baseline_ids(catalog, detected);
    lemma_filter_selects(detected, can_baseline(catalog));
    let at = choose|at: int| 0 <= at < detected.len() && detected[at] == id;
    assert(can_baseline(catalog)(detected[at]));
    assert(ids_of(out.baselined).contains(id));
    law_run_records_each_once(catalog, none, detected);
    if ids_of(out.executed).contains(id) {
        let k = choose|k: int| 0 <= k < out.executed.len() && ids_of(out.executed)[k] == id;
        assert(out.executed[k].id == id);
    }
    let k = choose|k: int| 0 <= k < ids_of(out.baselined).len() && ids_of(out.baselined)[k] == id;
    assert(out.ledger[k] == id);
}

} // verus!
