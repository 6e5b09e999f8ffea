//! The migration engine: brings a database to the latest catalog version.
//!
//! A run hardens the connection, makes sure the ledger table exists, and then,
//! inside one transaction, reconciles a database that predates the ledger
//! (the baseline) and runs every migration that the ledger lacks, recording
//! each.  Any failure leaves the transaction uncommitted, so nothing of the
//! run persists.

use vstd::prelude::*;
use crate::catalog::{
    BaselineProbe, Migration, baseline_probes, catalog_valid, ids_of, is_valid_catalog, migrations,
    shipped_catalog, shipped_probes,
};
use crate::clock::{CLOCK_UNUSABLE, unix_seconds};
use crate::error::CommandError;
use crate::plan::{applied_set, baseline, baseline_records, pending, pending_migrations};
use crate::rows::{NO_COLUMN, NO_ROW, from_rows, integer_in, read_failure, read_integer};
use crate::sql::{
    SqlDatum, SqlValue, all_bindable, commit, engine_begin, engine_connection, fetch,
    from_engine, run, run_batch, settle,
};

verus! {

/// The settings that every run applies to the connection before anything
/// else: references are enforced, writes go through a write-ahead log, and a
/// locked database is waited for.
pub const HARDENING_SQL: &'static str = "
PRAGMA foreign_keys = ON;
PRAGMA journal_mode = WAL;
PRAGMA busy_timeout = 5000;
";

/// Creates the ledger where it is missing.  The catalog cannot describe the
/// table that records the catalog.
pub const LEDGER_SQL: &'static str = "
CREATE TABLE IF NOT EXISTS schema_migrations(
    id INTEGER PRIMARY KEY,
    name TEXT NOT NULL,
    applied_at INTEGER NOT NULL
);
";

/// Counts the records of the ledger.
pub const COUNT_RECORDS_SQL: &'static str = "SELECT count(*) FROM schema_migrations";

/// Counts the columns of a table that bear a name: 1 where the live schema
/// has the column, 0 where it has not, or has no such table.
pub const PROBE_COLUMN_SQL: &'static str =
    "SELECT COUNT(*) FROM pragma_table_info(?1) WHERE name = ?2";

/// Records a migration as applied unless the ledger holds its id.
pub const BASELINE_RECORD_SQL: &'static str =
    "INSERT OR IGNORE INTO schema_migrations (id, name, applied_at) VALUES (?1, ?2, ?3)";

/// Records a migration as applied.
pub const RECORD_SQL: &'static str =
    "INSERT INTO schema_migrations(id, name, applied_at) VALUES(?1,?2,?3)";

/// Selects the ids that the ledger holds.
pub const APPLIED_IDS_SQL: &'static str = "SELECT id FROM schema_migrations";

/// The diagnostic for a catalog that is not valid.
pub const INVALID_CATALOG: &'static str =
    "the ids of the migration catalog must count up from 1 without a gap";

/// The integer in the first column of a row, if it holds one.
pub open spec fn id_in(row: Seq<SqlDatum>) -> Option<i64> {
    if row.len() > 0 {
        integer_in(row[0])
    } else {
        None
    }
}

/// The count that a counting query reports: the integer in the first column
/// of its first row.  Further rows do not count.
pub open spec fn count_in(rows: Seq<Seq<SqlDatum>>) -> Option<i64> {
    if rows.len() > 0 {
        id_in(rows[0])
    } else {
        None
    }
}

/// Reads the integer in the first column of a row.
fn id_from_row(row: &Vec<SqlValue>) -> (r: Result<i64, CommandError>)
    ensures
        match r {
            Ok(n) => id_in(row.deep_view()) == Some(n),
            Err(e) => id_in(row.deep_view()) is None && from_rows(e),
        },
{
    if row.len() == 0 {
        return Err(CommandError::new(NO_COLUMN));
    }
    assert(row.deep_view()[0] == row@[0]@);
    read_integer(&row[0])
}

/// Reads the count that a counting query reported; fails where the query
/// yielded no row or no integer.
pub fn count_from_rows(rows: &Vec<Vec<SqlValue>>) -> (r: Result<i64, CommandError>)
    ensures
        match r {
            Ok(n) => count_in(rows.deep_view()) == Some(n),
            Err(e) => count_in(rows.deep_view()) is None && from_rows(e),
        },
{
    if rows.len() == 0 {
        return Err(CommandError::new(NO_ROW));
    }
    assert(rows.deep_view()[0] == rows@[0].deep_view());
    id_from_row(&rows[0])
}

/// Whether `ids` are the integers in the first column of `rows`, row by row.
pub open spec fn ids_read(rows: Seq<Vec<SqlValue>>, ids: Seq<i64>) -> bool {
    &&& ids.len() == rows.len()
    &&& forall|i: int|
        0 <= i < rows.len() ==> id_in((#[trigger] rows[i]).deep_view()) == Some(ids[i])
}

/// Reads the ids that the ledger query yielded, one from each row in order;
/// fails where some row holds no integer id.
pub fn ids_from_rows(rows: &Vec<Vec<SqlValue>>) -> (r: Result<Vec<i64>, CommandError>)
    ensures
        match r {
            Ok(ids) => ids_read(rows@, ids@),
            Err(e) => from_rows(e) && exists|i: int|
                0 <= i < rows.len() && id_in((#[trigger] rows@[i]).deep_view()) is None,
        },
{
    let mut ids: Vec<i64> = Vec::new();
    let mut i: usize = 0;
    while i < rows.len()
        invariant
            i <= rows.len(),
            ids.len() == i,
            forall|j: int|
                0 <= j < i ==> id_in((#[trigger] rows@[j]).deep_view()) == Some(ids@[j]),
        decreases rows.len() - i,
    {
        match id_from_row(&rows[i]) {
            Ok(n) => ids.push(n),
            Err(e) => {
                return Err(e);
            },
        }
        i += 1;
    }
    Ok(ids)
}

/// Whether a column probe found the column.  A probe that failed counts as
/// not found.
pub fn column_present(probe: &Result<i64, CommandError>) -> (present: bool)
    ensures
        present == (probe matches Ok(n) && n > 0),
{
    match probe {
        Ok(n) => *n > 0,
        Err(_) => false,
    }
}

/// The parameters of the statement that records `migration` as applied at
/// `now`.
pub fn record_params(migration: &Migration, now: i64) -> (params: Vec<SqlValue>)
    ensures
        params.deep_view() == seq![
            SqlDatum::Integer(migration.id),
            SqlDatum::Text(migration.name@),
            SqlDatum::Integer(now),
        ],
        all_bindable(params@),
{
    let mut params: Vec<SqlValue> = Vec::new();
    params.push(SqlValue::Integer(migration.id));
    params.push(SqlValue::Text(migration.name.to_string()));
    params.push(SqlValue::Integer(now));
    assert(params.deep_view() =~= seq![
        SqlDatum::Integer(migration.id),
        SqlDatum::Text(migration.name@),
        SqlDatum::Integer(now),
    ]);
    params
}

/// Whether `part` picks elements of `whole` without changing their order.
pub open spec fn is_selection<A>(part: Seq<A>, whole: Seq<A>) -> bool {
    exists|at: Seq<int>|
        {
            &&& at.len() == part.len()
            &&& forall|k: int|
                0 <= k < at.len() ==> 0 <= #[trigger] at[k] < whole.len() && part[k] == whole[at[k]]
            &&& forall|j: int, k: int| 0 <= j < k < at.len() ==> at[j] < at[k]
        }
}

/// The ids that `probes` stand for, in order.
pub open spec fn probe_ids(probes: Seq<BaselineProbe>) -> Seq<i64> {
    Seq::new(probes.len(), |i: int| probes[i].migration_id)
}

/// The parameters of the query that asks whether the live schema has the
/// column of `probe`: the table, then the column.
pub fn probe_params(probe: &BaselineProbe) -> (params: Vec<SqlValue>)
    ensures
        params.deep_view() == seq![SqlDatum::Text(probe.table@), SqlDatum::Text(probe.column@)],
        all_bindable(params@),
{
    let mut params: Vec<SqlValue> = Vec::new();
    params.push(SqlValue::Text(probe.table.to_string()));
    params.push(SqlValue::Text(probe.column.to_string()));
    assert(params.deep_view() =~= seq![
        SqlDatum::Text(probe.table@),
        SqlDatum::Text(probe.column@),
    ]);
    params
}

/// Asks the live schema, probe by probe, which migrations' effects it shows.
fn detect(conn: &rusqlite::Connection, probes: &Vec<BaselineProbe>) -> (detected: Vec<i64>)
    ensures
        is_selection(detected@, probe_ids(probes@)),
{
    let mut detected: Vec<i64> = Vec::new();
    let ghost mut at: Seq<int> = Seq::empty();
    let mut i: usize = 0;
    while i < probes.len()
        invariant
            i <= probes.len(),
            at.len() == detected@.len(),
            forall|k: int|
                0 <= k < at.len() ==> 0 <= #[trigger] at[k] < i && detected@[k] == probe_ids(
                    probes@,
                )[at[k]],
            forall|j: int, k: int| 0 <= j < k < at.len() ==> at[j] < at[k],
        decreases probes.len() - i,
    {
        let probe: BaselineProbe = probes[i];
        let params = probe_params(&probe);
        let found = match fetch(conn, PROBE_COLUMN_SQL, &params, 1) {
            Ok(rows) => count_from_rows(&rows),
            Err(e) => Err(e),
        };
        if column_present(&found) {
            detected.push(probe.migration_id);
            proof {
                at = at.push(i as int);
            }
        }
        i += 1;
    }
    detected
}

/// Records each of `records` in the ledger with `statement`, in order, and
/// yields the ids recorded.  With nothing to record the engine is not asked,
/// so nothing can fail.
fn record_all(
    conn: &rusqlite::Connection,
    statement: &str,
    records: &Vec<Migration>,
    now: i64,
) -> (r: Result<Vec<i64>, CommandError>)
    ensures
        r matches Ok(ids) ==> ids@ == ids_of(records@),
        r matches Err(e) ==> from_engine(e),
        records@.len() == 0 ==> r is Ok,
{
    let mut ids: Vec<i64> = Vec::new();
    let mut i: usize = 0;
    while i < records.len()
        invariant
            i <= records.len(),
            ids@ == ids_of(records@.take(i as int)),
        decreases records.len() - i,
    {
        let params = record_params(&records[i], now);
        match run(conn, statement, &params) {
            Ok(_) => {},
            Err(e) => {
                return Err(e);
            },
        }
        ids.push(records[i].id);
        assert(ids@ =~= ids_of(records@.take(i + 1)));
        i += 1;
    }
    assert(records@.take(records.len() as int) =~= records@);
    Ok(ids)
}

/// Whether a failure of a run is accounted for: it is the engine's, with the
/// engine's diagnostic text, or one of reading rows, or the clock's.
pub open spec fn run_failure(e: CommandError) -> bool {
    read_failure(e) || e.message@ == CLOCK_UNUSABLE@
}

/// What the baseline step read and did.
#[derive(Debug)]
pub struct BaselineReport {
    /// The number of records that the ledger held.
    pub ledger_count: i64,
    /// The ids whose effect the live schema showed, in the order of the
    /// probes.  Empty where the ledger held a record: the schema is then not
    /// asked.
    pub detected: Vec<i64>,
    /// The ids recorded without running their migration, in order.
    pub recorded: Vec<i64>,
}

/// Whether a baseline did what the rules demand for what it read: it asked
/// the schema only where the ledger held no record, what it detected is a
/// selection of the probes, and it recorded exactly the baseline for the
/// count and the detection.
pub open spec fn baseline_follows(
    report: BaselineReport,
    catalog: Seq<Migration>,
    probes: Seq<BaselineProbe>,
) -> bool {
    &&& is_selection(report.detected@, probe_ids(probes))
    &&& report.ledger_count > 0 ==> report.detected@.len() == 0
    &&& report.recorded@ == ids_of(
        baseline(catalog, report.ledger_count as int, report.detected@),
    )
}

/// Reconciles a database that predates the ledger.  Where the ledger holds a
/// record already, nothing is done.  Otherwise every migration whose effect
/// the live schema shows is recorded as applied, without running it.  The
/// result says what was read and what was recorded.
pub fn baseline_if_needed(
    conn: &rusqlite::Connection,
    catalog: &Vec<Migration>,
    probes: &Vec<BaselineProbe>,
) -> (r: Result<BaselineReport, CommandError>)
    ensures
        r matches Ok(report) ==> baseline_follows(report, catalog@, probes@),
        r matches Err(e) ==> run_failure(e),
{
    let no_params: Vec<SqlValue> = Vec::new();
    let rows = match fetch(conn, COUNT_RECORDS_SQL, &no_params, 1) {
        Ok(rows) => rows,
        Err(e) => {
            return Err(e);
        },
    };
    let ledger_count = match count_from_rows(&rows) {
        Ok(n) => n,
        Err(e) => {
            return Err(e);
        },
    };
    if ledger_count > 0 {
        let detected: Vec<i64> = Vec::new();
        let recorded: Vec<i64> = Vec::new();
        proof {
            assert(is_selection(detected@, probe_ids(probes@))) by {
                let at = Seq::<int>::empty();
                assert(at.len() == detected@.len());
            }
            assert(recorded@ =~= ids_of(baseline(catalog@, ledger_count as int, detected@)));
        }
        return Ok(BaselineReport { ledger_count, detected, recorded });
    }
    let now = match unix_seconds() {
        Ok(now) => now,
        Err(e) => {
            return Err(e);
        },
    };
    let detected = detect(conn, probes);
    let records = baseline_records(catalog, ledger_count, &detected);
    match record_all(conn, BASELINE_RECORD_SQL, &records, now) {
        Ok(recorded) => Ok(BaselineReport { ledger_count, detected, recorded }),
        Err(e) => Err(e),
    }
}

/// What a run read and did.
#[derive(Debug)]
pub struct MigrationReport {
    /// The batches that were run before the transaction began, in order.
    pub prepared: Vec<&'static str>,
    /// The number of records that the ledger held when the run began.
    pub ledger_count: i64,
    /// The ids whose effect the live schema showed, in the order of the
    /// probes.  Empty where the ledger held a record.
    pub detected: Vec<i64>,
    /// The ids recorded without running their migration, in order.
    pub baselined: Vec<i64>,
    /// The ids that the ledger held after the baseline, as the engine
    /// yielded them.
    pub applied: Vec<i64>,
    /// The ids of the migrations that were run, in order.
    pub executed: Vec<i64>,
}

/// Runs each of `waiting` in order and records it, and yields the ids of
/// what was run.  With nothing waiting the engine is not asked, so nothing
/// can fail.
fn execute_all(conn: &rusqlite::Connection, waiting: &Vec<Migration>) -> (r: Result<
    Vec<i64>,
    CommandError,
>)
    ensures
        r matches Ok(ids) ==> ids@ == ids_of(waiting@),
        r matches Err(e) ==> from_engine(e) || e.message@ == CLOCK_UNUSABLE@,
        waiting@.len() == 0 ==> r is Ok,
{
    let mut ids: Vec<i64> = Vec::new();
    let mut i: usize = 0;
    while i < waiting.len()
        invariant
            i <= waiting.len(),
            ids@ == ids_of(waiting@.take(i as int)),
        decreases waiting.len() - i,
    {
        match run_batch(conn, waiting[i].sql) {
            Ok(()) => {},
            Err(e) => {
                return Err(e);
            },
        }
        let now = match unix_seconds() {
            Ok(now) => now,
            Err(e) => {
                return Err(e);
            },
        };
        let params = record_params(&waiting[i], now);
        match run(conn, RECORD_SQL, &params) {
            Ok(_) => {},
            Err(e) => {
                return Err(e);
            },
        }
        ids.push(waiting[i].id);
        assert(ids@ =~= ids_of(waiting@.take(i + 1)));
        i += 1;
    }
    assert(waiting@.take(waiting.len() as int) =~= waiting@);
    Ok(ids)
}

/// The batches that every run starts with, before its transaction: the
/// hardening of the connection, then the ledger table.
pub open spec fn preparation_of() -> Seq<&'static str> {
    seq![HARDENING_SQL, LEDGER_SQL]
}

/// The batches that every run starts with.
pub fn preparation() -> (batches: Vec<&'static str>)
    ensures
        batches@ == preparation_of(),
{
    let mut batches: Vec<&'static str> = Vec::new();
    batches.push(HARDENING_SQL);
    batches.push(LEDGER_SQL);
    assert(batches@ =~= preparation_of());
    batches
}

/// Runs each of `batches` in order and yields what was run.  With no batch
/// the engine is not asked, so nothing can fail; a failure is the engine's.
fn run_batches(conn: &rusqlite::Connection, batches: Vec<&'static str>) -> (r: Result<
    Vec<&'static str>,
    CommandError,
>)
    ensures
        r matches Ok(ran) ==> ran@ == batches@,
        r matches Err(e) ==> from_engine(e),
        batches@.len() == 0 ==> r is Ok,
{
    let mut i: usize = 0;
    while i < batches.len()
        invariant
            i <= batches.len(),
        decreases batches.len() - i,
    {
        match run_batch(conn, batches[i]) {
            Ok(()) => {},
            Err(e) => {
                return Err(e);
            },
        }
        i += 1;
    }
    Ok(batches)
}

/// Whether a run did what the rules demand for what it read: it ran the
/// preparation, the baseline follows the rules, and what was run is exactly
/// what the ledger, as read after the baseline, lacked of the catalog, in
/// catalog order.
pub open spec fn follows_the_rules(
    report: MigrationReport,
    catalog: Seq<Migration>,
    probes: Seq<BaselineProbe>,
) -> bool {
    &&& report.prepared@ == preparation_of()
    &&& is_selection(report.detected@, probe_ids(probes))
    &&& report.ledger_count > 0 ==> report.detected@.len() == 0
    &&& report.baselined@ == ids_of(
        baseline(catalog, report.ledger_count as int, report.detected@),
    )
    &&& report.executed@ == ids_of(pending(catalog, report.applied@.to_set()))
}

/// Everything of a run that happens inside its transaction, after the
/// batches `prepared` were run.
fn migrate_in_transaction(
    conn: &rusqlite::Connection,
    catalog: &Vec<Migration>,
    probes: &Vec<BaselineProbe>,
    prepared: Vec<&'static str>,
) -> (r: Result<MigrationReport, CommandError>)
    requires
        prepared@ == preparation_of(),
    ensures
        r matches Ok(report) ==> follows_the_rules(report, catalog@, probes@),
        r matches Err(e) ==> run_failure(e),
{
    let first = match baseline_if_needed(conn, catalog, probes) {
        Ok(report) => report,
        Err(e) => {
            return Err(e);
        },
    };
    let no_params: Vec<SqlValue> = Vec::new();
    let rows = match fetch(conn, APPLIED_IDS_SQL, &no_params, 1) {
        Ok(rows) => rows,
        Err(e) => {
            return Err(e);
        },
    };
    let applied = match ids_from_rows(&rows) {
        Ok(ids) => ids,
        Err(e) => {
            return Err(e);
        },
    };
    let waiting = pending_migrations(catalog, &applied_set(&applied));
    let executed = match execute_all(conn, &waiting) {
        Ok(ids) => ids,
        Err(e) => {
            return Err(e);
        },
    };
    Ok(
        MigrationReport {
            prepared,
            ledger_count: first.ledger_count,
            detected: first.detected,
            baselined: first.recorded,
            applied,
            executed,
        },
    )
}

/// Brings the database behind `conn` to the latest version of `catalog`.
///
/// A catalog that is not valid is refused before the engine is asked.
/// Outside the transaction: the connection is hardened and the ledger table
/// is created where it is missing, at every run.  Inside it: the baseline,
/// then every pending migration in catalog order.  On `Ok` the transaction
/// was committed; on `Err` it was not, and nothing of the run persists.  The
/// report says what the run read and what it did with it.  A failure on a
/// valid catalog is the engine's, with its diagnostic text, or one of reading
/// rows, or the clock's.
pub fn apply_migrations(
    conn: &mut rusqlite::Connection,
    catalog: &Vec<Migration>,
    probes: &Vec<BaselineProbe>,
) -> (r: Result<MigrationReport, CommandError>)
    ensures
        r matches Ok(report) ==> catalog_valid(catalog@) && follows_the_rules(
            report,
            catalog@,
            probes@,
        ),
        !catalog_valid(catalog@) ==> (r matches Err(e) && e.message@ == INVALID_CATALOG@),
        catalog_valid(catalog@) ==> (r matches Err(e) ==> run_failure(e)),
{
    if !is_valid_catalog(catalog) {
        return Err(CommandError::new(INVALID_CATALOG));
    }
    let prepared = match run_batches(conn, preparation()) {
        Ok(ran) => ran,
        Err(e) => {
            return Err(e);
        },
    };
    let tx = match settle(engine_begin(conn)) {
        Ok(tx) => tx,
        Err(e) => {
            return Err(e);
        },
    };
    let report = match migrate_in_transaction(engine_connection(&tx), catalog, probes, prepared) {
        Ok(report) => report,
        Err(e) => {
            return Err(e);
        },
    };
    match commit(tx) {
        Ok(()) => Ok(report),
        Err(e) => Err(e),
    }
}

/// Brings the database behind `conn` to the latest version of the shipped
/// catalog, and reports what the run read and did.  Safe to call at every
/// start: a database that is up to date is left as it is.
pub fn run_migrations(conn: &mut rusqlite::Connection) -> (r: Result<MigrationReport, CommandError>)
    ensures
        r matches Ok(report) ==> follows_the_rules(report, shipped_catalog(), shipped_probes()),
        r matches Err(e) ==> run_failure(e),
{
    let catalog = migrations();
    let probes = baseline_probes();
    apply_migrations(conn, &catalog, &probes)
}

} // verus!
