//! The migration catalog: the ordered, append-only list of schema changes,
//! and the pure rules by which the engine decides what a run has to do.

use vstd::prelude::*;

verus! {

/// One forward-only schema change.  Once released, neither its id nor its
/// name nor its statements change.
#[derive(Debug, Clone, Copy)]
pub struct Migration {
    pub id: i64,
    pub name: &'static str,
    pub sql: &'static str,
}

/// A column whose presence in the live schema shows that a migration's effect
/// is already there.
#[derive(Debug, Clone, Copy)]
pub struct BaselineProbe {
    pub migration_id: i64,
    pub table: &'static str,
    pub column: &'static str,
}

/// The first migration: the tables of tasks, day blocks and settings.  It
/// creates only what is missing, so that it also passes on a database that
/// had these tables before there was a ledger.  A task's estimate may be
/// absent; a column that an earlier schema declared with a default of its own
/// is read as it stands.
pub const INIT_SQL: &'static str = "
CREATE TABLE IF NOT EXISTS tasks (
    id TEXT PRIMARY KEY,
    title TEXT NOT NULL,
    done INTEGER NOT NULL DEFAULT 0,
    est_minutes INTEGER,
    notes TEXT,
    project TEXT,
    tags TEXT,
    created_at TEXT
);
CREATE TABLE IF NOT EXISTS day_blocks (
    id TEXT PRIMARY KEY,
    task_id TEXT,
    date TEXT NOT NULL,
    start_slot INTEGER NOT NULL,
    end_slot INTEGER NOT NULL,
    FOREIGN KEY (task_id) REFERENCES tasks (id)
);
CREATE TABLE IF NOT EXISTS settings (
    key TEXT PRIMARY KEY,
    value TEXT
);
";

/// The second migration: the flag that puts a task on today's plan.
pub const ADD_IS_TODAY_SQL: &'static str =
    "ALTER TABLE tasks ADD COLUMN is_today INTEGER NOT NULL DEFAULT 0;";

/// The third migration: a task's due date.
pub const ADD_DUE_SQL: &'static str = "ALTER TABLE tasks ADD COLUMN due TEXT;";

/// The ids of `entries`, in order.
pub open spec fn ids_of(entries: Seq<Migration>) -> Seq<i64> {
    Seq::new(entries.len(), |i: int| entries[i].id)
}

/// A catalog is valid when its ids count up from 1 without a gap.
pub open spec fn catalog_valid(catalog: Seq<Migration>) -> bool {
    forall|i: int| 0 <= i < catalog.len() ==> (#[trigger] catalog[i]).id == i + 1
}

/// The catalog that this version of the application ships.
pub open spec fn shipped_catalog() -> Seq<Migration> {
    seq![
        Migration { id: 1, name: "init", sql: INIT_SQL },
        Migration { id: 2, name: "add_is_today", sql: ADD_IS_TODAY_SQL },
        Migration { id: 3, name: "add_due", sql: ADD_DUE_SQL },
    ]
}

/// The columns by which the shipped catalog's later migrations are detected.
pub open spec fn shipped_probes() -> Seq<BaselineProbe> {
    seq![
        BaselineProbe { migration_id: 2, table: "tasks", column: "is_today" },
        BaselineProbe { migration_id: 3, table: "tasks", column: "due" },
    ]
}

/// The catalog that this version of the application ships.
pub fn migrations() -> (catalog: Vec<Migration>)
    ensures
        catalog@ == shipped_catalog(),
        catalog_valid(catalog@),
{
    let mut catalog: Vec<Migration> = Vec::new();
    catalog.push(Migration { id: 1, name: "init", sql: INIT_SQL });
    catalog.push(Migration { id: 2, name: "add_is_today", sql: ADD_IS_TODAY_SQL });
    catalog.push(Migration { id: 3, name: "add_due", sql: ADD_DUE_SQL });
    assert(catalog@ =~= shipped_catalog());
    catalog
}

/// The columns by which the shipped catalog's later migrations are detected.
pub fn baseline_probes() -> (probes: Vec<BaselineProbe>)
    ensures
        probes@ == shipped_probes(),
{
    let mut probes: Vec<BaselineProbe> = Vec::new();
    probes.push(BaselineProbe { migration_id: 2, table: "tasks", column: "is_today" });
    probes.push(BaselineProbe { migration_id: 3, table: "tasks", column: "due" });
    assert(probes@ =~= shipped_probes());
    probes
}

/// Whether `catalog` is valid.
pub fn is_valid_catalog(catalog: &Vec<Migration>) -> (ok: bool)
    ensures
        ok == catalog_valid(catalog@),
{
    let mut i: usize = 0;
    while i < catalog.len()
        invariant
            i <= catalog.len(),
            forall|j: int| 0 <= j < i ==> (#[trigger] catalog@[j]).id == j + 1,
        decreases catalog.len() - i,
    {
        let id: i64 = catalog[i].id;
        if id <= 0 || (id - 1) as u64 != i as u64 {
            assert(catalog@[i as int].id != i + 1);
            return false;
        }
        i += 1;
    }
    true
}

} // verus!
