//! The entity stores: every operation that callers have on tasks, day blocks
//! and settings.
//!
//! Each operation states two things.  What it hands to the engine is fixed by
//! a pure function of its arguments.  What it makes of the rows that the
//! engine yields is fixed by a pure function of those rows.  What the engine
//! itself does is not proved.  A write of several statements runs in one
//! transaction, which is committed only if every statement succeeded.

use vstd::prelude::*;
use crate::db::Database;
use crate::error::CommandError;
use crate::json::encode_tags;
use crate::models::{DayBlock, Task, opt_text};
use crate::rows::{
    NO_COLUMN, block_data, block_params, blocks_from_rows, blocks_read, from_rows, key_params,
    read_failure, read_text,
    setting_from_row, setting_in, setting_params, task_data, task_in, task_params, tasks_from_rows,
    tasks_read, text_in,
};
use crate::sql::{
    SqlDatum, SqlStatement, SqlStatementView, SqlValue, all_bindable, fetch, from_engine, run,
    run_batch, run_in_transaction, script_bindable,
};

verus! {

/// Selects every task, its columns in the order in which a task row is read.
pub const SELECT_TASKS_SQL: &'static str =
    "SELECT id, title, done, is_today, est_minutes, notes, project, tags, created_at, due FROM tasks";

/// Writes a task under its id: inserts it, or overwrites every other column
/// of the row that holds the id.
pub const UPSERT_TASK_SQL: &'static str =
    "INSERT INTO tasks (id, title, done, is_today, est_minutes, notes, project, tags, created_at, due) VALUES (?1, ?2, ?3, ?4, ?5, ?6, ?7, ?8, ?9, ?10) ON CONFLICT(id) DO UPDATE SET title = excluded.title, done = excluded.done, is_today = excluded.is_today, est_minutes = excluded.est_minutes, notes = excluded.notes, project = excluded.project, tags = excluded.tags, created_at = excluded.created_at, due = excluded.due";

/// Deletes the blocks that name a task.
pub const DELETE_TASK_BLOCKS_SQL: &'static str = "DELETE FROM day_blocks WHERE task_id = ?1";

/// Deletes the task of an id.
pub const DELETE_TASK_SQL: &'static str = "DELETE FROM tasks WHERE id = ?1";

/// Selects the blocks of a date, their columns in the order in which a block
/// row is read.
pub const SELECT_BLOCKS_SQL: &'static str =
    "SELECT id, task_id, date, start_slot, end_slot FROM day_blocks WHERE date = ?1";

/// Deletes every block of a date.
pub const DELETE_BLOCKS_SQL: &'static str = "DELETE FROM day_blocks WHERE date = ?1";

/// Inserts one block.
pub const INSERT_BLOCK_SQL: &'static str =
    "INSERT INTO day_blocks (id, task_id, date, start_slot, end_slot) VALUES (?1, ?2, ?3, ?4, ?5)";

/// Drops the tables of day blocks and tasks.
pub const PURGE_SQL: &'static str = "
PRAGMA foreign_keys = ON;
DROP TABLE IF EXISTS day_blocks;
DROP TABLE IF EXISTS tasks;
";

/// Selects every setting.
pub const SELECT_SETTINGS_SQL: &'static str = "SELECT key, value FROM settings";

/// Sets a key to a value, whether or not the key is there.
pub const UPSERT_SETTING_SQL: &'static str =
    "INSERT OR REPLACE INTO settings (key, value) VALUES (?1, ?2)";

/// Selects the credential of the hosted assistant.
pub const SELECT_API_KEY_SQL: &'static str = "SELECT value FROM settings WHERE key = 'apiKey'";

/// The diagnostic for a task without a title.
pub const EMPTY_TITLE: &'static str = "a task must have a title";

/// The diagnostic for a set of blocks that cannot be saved for a date.
pub const UNFIT_BLOCK: &'static str =
    "every block must end after it starts and lie on the date that is saved";

/// Lists every task, in storage order.  Each task's tags are present, and
/// empty where none were stored or the stored text is no tag list.
pub fn get_tasks(db: &Database) -> (r: Result<Vec<Task>, CommandError>)
    ensures
        r matches Ok(tasks) ==> exists|rows: Seq<Vec<SqlValue>>| #[trigger] tasks_read(rows, tasks@),
        r matches Ok(tasks) ==> forall|i: int|
            0 <= i < tasks.len() ==> (#[trigger] tasks@[i])@.tags is Some,
        r matches Err(e) ==> read_failure(e),
{
    let no_params: Vec<SqlValue> = Vec::new();
    let rows = match fetch(&db.0, SELECT_TASKS_SQL, &no_params, 10) {
        Ok(rows) => rows,
        Err(e) => {
            return Err(e);
        },
    };
    let listed = tasks_from_rows(&rows);
    proof {
        if listed is Ok {
            let tasks = listed->Ok_0;
            assert forall|i: int| 0 <= i < tasks.len() implies (#[trigger] tasks@[i])@.tags is Some by {
                assert(task_in(rows@[i].deep_view()) == Some(tasks@[i]@));
            }
        }
    }
    listed
}

/// The statement that writes `task`: an upsert by id, with the task's fields
/// as parameters and its tags as their encoded text.
pub open spec fn task_statement(task: Task, tags_text: Seq<char>) -> SqlStatementView {
    SqlStatementView { sql: UPSERT_TASK_SQL@, params: task_data(task@, tags_text) }
}

/// Builds the statement that writes `task`.
pub fn upsert_task_statement(task: &Task, tags_text: String) -> (statement: SqlStatement)
    ensures
        statement@ == task_statement(*task, tags_text@),
        all_bindable(statement.params@),
{
    SqlStatement { sql: UPSERT_TASK_SQL, params: task_params(task, tags_text) }
}

/// Writes `task`, replacing the task of the same id if there is one.
fn write_task(task: &Task, db: &Database) -> (r: Result<(), CommandError>)
    ensures
        !task@.valid() ==> (r matches Err(e) && e.message@ == EMPTY_TITLE@),
        task@.valid() ==> (r matches Err(e) ==> from_engine(e)),
{
    if !task.is_valid() {
        return Err(CommandError::new(EMPTY_TITLE));
    }
    let tags_text = match encode_tags(&task.tags) {
        Ok(text) => text,
        Err(e) => {
            return Err(e);
        },
    };
    let statement = upsert_task_statement(task, tags_text);
    match run(&db.0, statement.sql, &statement.params) {
        Ok(_) => Ok(()),
        Err(e) => Err(e),
    }
}

/// Creates `task` under the id that the caller chose.  A task without a title
/// is refused before the engine is asked.  Where a task of that id exists, it
/// is replaced.
pub fn add_task(task: Task, db: &Database) -> (r: Result<(), CommandError>)
    ensures
        !task@.valid() ==> (r matches Err(e) && e.message@ == EMPTY_TITLE@),
        task@.valid() ==> (r matches Err(e) ==> from_engine(e)),
{
    write_task(&task, db)
}

/// Updates the task of `task.id` to hold what `task` holds.  A task without a
/// title is refused before the engine is asked.  Where no task of that id
/// exists, it is created.
pub fn update_task(task: Task, db: &Database) -> (r: Result<(), CommandError>)
    ensures
        !task@.valid() ==> (r matches Err(e) && e.message@ == EMPTY_TITLE@),
        task@.valid() ==> (r matches Err(e) ==> from_engine(e)),
{
    write_task(&task, db)
}

/// What deleting the task `id` hands to the engine: first the blocks that
/// name the task go, then the task.
pub open spec fn delete_task_plan(id: Seq<char>) -> Seq<SqlStatementView> {
    seq![
        SqlStatementView { sql: DELETE_TASK_BLOCKS_SQL@, params: seq![SqlDatum::Text(id)] },
        SqlStatementView { sql: DELETE_TASK_SQL@, params: seq![SqlDatum::Text(id)] },
    ]
}

/// Builds the statements that delete the task `id`.
pub fn delete_task_script(id: &String) -> (script: Vec<SqlStatement>)
    ensures
        script.deep_view() == delete_task_plan(id@),
        script_bindable(script@),
{
    let mut script: Vec<SqlStatement> = Vec::new();
    script.push(SqlStatement { sql: DELETE_TASK_BLOCKS_SQL, params: key_params(id) });
    script.push(SqlStatement { sql: DELETE_TASK_SQL, params: key_params(id) });
    assert(script.deep_view() =~= delete_task_plan(id@));
    script
}

/// Deletes the task `id` together with the blocks that name it, in one
/// transaction.  A block never keeps a deletion from succeeding, whether or
/// not the schema enforces the reference.  No id is refused: a failure is the
/// engine's and carries its diagnostic text.
pub fn delete_task(id: String, db: &mut Database) -> (r: Result<(), CommandError>)
    ensures
        r matches Err(e) ==> from_engine(e),
{
    let script = delete_task_script(&id);
    run_in_transaction(&mut db.0, &script)
}

/// Lists the blocks that the store yields for `date`, in storage order.
pub fn get_blocks_for_date(date: String, db: &Database) -> (r: Result<Vec<DayBlock>, CommandError>)
    ensures
        r matches Ok(blocks) ==> exists|rows: Seq<Vec<SqlValue>>| #[trigger]
            blocks_read(rows, blocks@),
        r matches Err(e) ==> read_failure(e),
{
    let params = key_params(&date);
    let rows = match fetch(&db.0, SELECT_BLOCKS_SQL, &params, 5) {
        Ok(rows) => rows,
        Err(e) => {
            return Err(e);
        },
    };
    blocks_from_rows(&rows)
}

/// Whether every one of `blocks` ends after it starts and lies on `date`.
pub open spec fn blocks_fit(date: Seq<char>, blocks: Seq<DayBlock>) -> bool {
    forall|i: int|
        0 <= i < blocks.len() ==> (#[trigger] blocks[i])@.valid() && blocks[i]@.date == date
}

/// Whether every one of `blocks` ends after it starts and lies on `date`.
pub fn blocks_fit_date(date: &String, blocks: &Vec<DayBlock>) -> (ok: bool)
    ensures
        ok == blocks_fit(date@, blocks@),
{
    let mut i: usize = 0;
    while i < blocks.len()
        invariant
            i <= blocks.len(),
            forall|j: int|
                0 <= j < i ==> (#[trigger] blocks@[j])@.valid() && blocks@[j]@.date == date@,
        decreases blocks.len() - i,
    {
        if !blocks[i].is_valid() || !(blocks[i].date == *date) {
            return false;
        }
        i += 1;
    }
    true
}

/// What replacing the blocks of `date` hands to the engine: the statement
/// that deletes every block of the date, then one insertion for each of
/// `blocks`, in order.
pub open spec fn replace_blocks_plan(date: Seq<char>, blocks: Seq<DayBlock>) -> Seq<
    SqlStatementView,
> {
    seq![SqlStatementView { sql: DELETE_BLOCKS_SQL@, params: seq![SqlDatum::Text(date)] }]
        + Seq::new(
        blocks.len(),
        |i: int| SqlStatementView { sql: INSERT_BLOCK_SQL@, params: block_data(blocks[i]@) },
    )
}

/// Builds the statements that replace the blocks of `date` by `blocks`.
pub fn replace_blocks_script(date: &String, blocks: &Vec<DayBlock>) -> (script: Vec<SqlStatement>)
    ensures
        script.deep_view() == replace_blocks_plan(date@, blocks@),
        script_bindable(script@),
{
    let mut script: Vec<SqlStatement> = Vec::new();
    script.push(SqlStatement { sql: DELETE_BLOCKS_SQL, params: key_params(date) });
    let mut i: usize = 0;
    while i < blocks.len()
        invariant
            i <= blocks.len(),
            script.len() == i + 1,
            script_bindable(script@),
            script@[0]@ == (SqlStatementView {
                sql: DELETE_BLOCKS_SQL@,
                params: seq![SqlDatum::Text(date@)],
            }),
            forall|j: int|
                0 <= j < i ==> (#[trigger] script@[j + 1])@ == (SqlStatementView {
                    sql: INSERT_BLOCK_SQL@,
                    params: block_data(blocks@[j]@),
                }),
        decreases blocks.len() - i,
    {
        script.push(SqlStatement { sql: INSERT_BLOCK_SQL, params: block_params(&blocks[i]) });
        i += 1;
    }
    proof {
        let plan = replace_blocks_plan(date@, blocks@);
        assert(script.deep_view().len() == plan.len());
        assert forall|k: int| 0 <= k < plan.len() implies script.deep_view()[k] == plan[k] by {
            if k > 0 {
                assert(script@[(k - 1) + 1]@ == plan[k]);
            }
        }
        assert(script.deep_view() =~= plan);
    }
    script
}

/// Replaces the blocks of `date` by `blocks`: in one transaction, every block
/// of the date is deleted and each of `blocks` is inserted.  A reader sees
/// the old set or the new one, never a mixture.  Where some block does not
/// end after it starts or lies on another date, nothing is handed to the
/// engine.
pub fn save_blocks_for_date(date: String, blocks: Vec<DayBlock>, db: &mut Database) -> (r: Result<
    (),
    CommandError,
>)
    ensures
        !blocks_fit(date@, blocks@) ==> (r matches Err(e) && e.message@ == UNFIT_BLOCK@),
        blocks_fit(date@, blocks@) ==> (r matches Err(e) ==> from_engine(e)),
{
    if !blocks_fit_date(&date, &blocks) {
        return Err(CommandError::new(UNFIT_BLOCK));
    }
    let script = replace_blocks_script(&date, &blocks);
    run_in_transaction(&mut db.0, &script)
}

/// Drops the tables of tasks and day blocks, with everything in them.  A
/// failure is the engine's and carries its diagnostic text.
pub fn purge_all_data(db: &Database) -> (r: Result<(), CommandError>)
    ensures
        r matches Err(e) ==> from_engine(e),
{
    run_batch(&db.0, PURGE_SQL)
}

/// The settings as the store yielded them: one entry for each row, in storage
/// order.  As a mapping, a key stands for the value of its last entry.
#[derive(Debug)]
pub struct Settings {
    pub entries: Vec<(String, String)>,
}

/// The value that the last entry of `entries` with the key `key` holds.
pub open spec fn last_value(entries: Seq<(String, String)>, key: Seq<char>) -> Option<Seq<char>>
    decreases entries.len(),
{
    if entries.len() == 0 {
        None
    } else if entries.last().0@ == key {
        Some(entries.last().1@)
    } else {
        last_value(entries.drop_last(), key)
    }
}

impl View for Settings {
    type V = Map<Seq<char>, Seq<char>>;

    open spec fn view(&self) -> Map<Seq<char>, Seq<char>> {
        Map::new(
            |key: Seq<char>| last_value(self.entries@, key) is Some,
            |key: Seq<char>| last_value(self.entries@, key)->0,
        )
    }
}

impl Settings {
    /// The value of `key`, if the settings hold one.
    pub fn get(&self, key: &str) -> (value: Option<String>)
        ensures
            match value {
                Some(v) => self@.contains_key(key@) && self@[key@] == v@,
                None => !self@.contains_key(key@),
            },
    {
        let wanted = key.to_string();
        let mut i: usize = self.entries.len();
        assert(self.entries@.take(i as int) =~= self.entries@);
        while i > 0
            invariant
                i <= self.entries.len(),
                wanted@ == key@,
                last_value(self.entries@, key@) == last_value(self.entries@.take(i as int), key@),
            decreases i,
        {
            let ghost front = self.entries@.take(i as int);
            assert(front.last() == self.entries@[i - 1]);
            assert(front.drop_last() =~= self.entries@.take(i - 1));
            if self.entries[i - 1].0 == wanted {
                return Some(self.entries[i - 1].1.clone());
            }
            i -= 1;
        }
        None
    }

    /// The number of entries.
    pub fn len(&self) -> (n: usize)
        ensures
            n == self.entries@.len(),
    {
        self.entries.len()
    }
}

/// Whether `entries` are what `rows` stand for, row by row.
pub open spec fn settings_read(rows: Seq<Vec<SqlValue>>, entries: Seq<(String, String)>) -> bool {
    &&& entries.len() == rows.len()
    &&& forall|i: int|
        0 <= i < rows.len() ==> setting_in((#[trigger] rows[i]).deep_view()) == Some(
            (entries[i].0@, entries[i].1@),
        )
}

/// Reads one setting from each row, in order; fails where some row is no
/// setting.
pub fn settings_from_rows(rows: &Vec<Vec<SqlValue>>) -> (r: Result<Settings, CommandError>)
    ensures
        match r {
            Ok(settings) => settings_read(rows@, settings.entries@),
            Err(e) => from_rows(e) && exists|i: int|
                0 <= i < rows.len() && setting_in((#[trigger] rows@[i]).deep_view()) is None,
        },
{
    let mut entries: Vec<(String, String)> = Vec::new();
    let mut i: usize = 0;
    while i < rows.len()
        invariant
            i <= rows.len(),
            entries.len() == i,
            forall|j: int|
                0 <= j < i ==> setting_in((#[trigger] rows@[j]).deep_view()) == Some(
                    (entries@[j].0@, entries@[j].1@),
                ),
        decreases rows.len() - i,
    {
        match setting_from_row(&rows[i]) {
            Ok(pair) => entries.push(pair),
            Err(e) => {
                return Err(e);
            },
        }
        i += 1;
    }
    Ok(Settings { entries })
}

/// Reads every setting that the store yields.
pub fn get_settings(db: &Database) -> (r: Result<Settings, CommandError>)
    ensures
        r matches Ok(settings) ==> exists|rows: Seq<Vec<SqlValue>>| #[trigger]
            settings_read(rows, settings.entries@),
        r matches Err(e) ==> read_failure(e),
{
    let no_params: Vec<SqlValue> = Vec::new();
    let rows = match fetch(&db.0, SELECT_SETTINGS_SQL, &no_params, 2) {
        Ok(rows) => rows,
        Err(e) => {
            return Err(e);
        },
    };
    settings_from_rows(&rows)
}

/// The statement that sets `key` to `value`.
pub open spec fn setting_statement(key: Seq<char>, value: Seq<char>) -> SqlStatementView {
    SqlStatementView {
        sql: UPSERT_SETTING_SQL@,
        params: seq![SqlDatum::Text(key), SqlDatum::Text(value)],
    }
}

/// Builds the statement that sets `key` to `value`.
pub fn upsert_setting_statement(key: &String, value: &String) -> (statement: SqlStatement)
    ensures
        statement@ == setting_statement(key@, value@),
        all_bindable(statement.params@),
{
    SqlStatement { sql: UPSERT_SETTING_SQL, params: setting_params(key, value) }
}

/// Sets `key` to `value`, whatever the value says: a setting is created or
/// replaced, never refused for its content.  A failure is the engine's and
/// carries its diagnostic text.
pub fn update_setting(key: String, value: String, db: &Database) -> (r: Result<(), CommandError>)
    ensures
        r matches Err(e) ==> from_engine(e),
{
    let statement = upsert_setting_statement(&key, &value);
    match run(&db.0, statement.sql, &statement.params) {
        Ok(_) => Ok(()),
        Err(e) => Err(e),
    }
}

/// The text in the first column of the first row, if there is a row.
pub open spec fn first_text_in(rows: Seq<Seq<SqlDatum>>) -> Option<Option<Seq<char>>> {
    if rows.len() == 0 {
        Some(None)
    } else if rows[0].len() > 0 && text_in(rows[0][0]) is Some {
        Some(text_in(rows[0][0]))
    } else {
        None
    }
}

/// Reads the text in the first column of the first row: nothing where no row
/// came back, a failure where the first row holds no text there.
pub fn first_text(rows: &Vec<Vec<SqlValue>>) -> (r: Result<Option<String>, CommandError>)
    ensures
        match r {
            Ok(Some(text)) => first_text_in(rows.deep_view()) == Some(Some(text@)),
            Ok(None) => first_text_in(rows.deep_view()) == Some(None::<Seq<char>>),
            Err(e) => first_text_in(rows.deep_view()) is None && from_rows(e),
        },
{
    if rows.len() == 0 {
        return Ok(None);
    }
    assert(rows.deep_view()[0] == rows@[0].deep_view());
    if rows[0].len() == 0 {
        return Err(CommandError::new(NO_COLUMN));
    }
    assert(rows@[0].deep_view()[0] == rows@[0]@[0]@);
    match read_text(&rows[0][0]) {
        Ok(text) => Ok(Some(text)),
        Err(e) => Err(e),
    }
}

/// Reads the credential of the hosted assistant from the settings, if one is
/// stored: what `first_text` makes of the rows that the store yields.
pub fn api_key(db: &Database) -> (r: Result<Option<String>, CommandError>)
    ensures
        r matches Ok(found) ==> exists|rows: Seq<Seq<SqlDatum>>| #[trigger]
            first_text_in(rows) == Some(opt_text(found)),
        r matches Err(e) ==> read_failure(e),
{
    let no_params: Vec<SqlValue> = Vec::new();
    let rows = match fetch(&db.0, SELECT_API_KEY_SQL, &no_params, 1) {
        Ok(rows) => rows,
        Err(e) => {
            return Err(e);
        },
    };
    let found = first_text(&rows);
    proof {
        if found is Ok {
            assert(first_text_in(rows.deep_view()) == Some(opt_text(found->Ok_0)));
        }
    }
    found
}

} // verus!
