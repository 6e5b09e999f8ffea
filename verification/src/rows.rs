//! Rows and parameters: how each entity is read from the columns of a row and
//! written as the parameters of a statement.

use vstd::prelude::*;
use crate::error::CommandError;
use crate::json::{decode_tags, stored_tags};
use crate::models::{DayBlock, DayBlockView, Task, TaskView, opt_text};
use crate::sql::{
    SqlDatum, SqlValue, TOO_MANY_ROWS, all_bindable, flag_datum, from_engine, text_or_null,
};

verus! {

/// The diagnostic for a column that must hold text and does not.
pub const NOT_TEXT: &'static str = "a column that must hold text holds something else";

/// The diagnostic for a column that may hold text and holds something else.
pub const NOT_OPTIONAL_TEXT: &'static str = "a column that may hold text holds something else";

/// The diagnostic for a column that must hold an integer and does not.
pub const NOT_INTEGER: &'static str = "a column that must hold an integer holds something else";

/// The diagnostic for a column that must hold a flag and does not.
pub const NOT_FLAG: &'static str = "a column that must hold a flag holds something else";

/// The diagnostic for a column that must hold a number and does not.
pub const NOT_NUMBER: &'static str = "a column that must hold a number holds something else";

/// The diagnostic for a number that does not fit 32 bits.
pub const NUMBER_OUT_OF_RANGE: &'static str = "a number is out of range";

/// The diagnostic for a task row of another width.
pub const NOT_TASK_WIDTH: &'static str = "a task row must have ten columns";

/// The diagnostic for a block row of another width.
pub const NOT_BLOCK_WIDTH: &'static str = "a block row must have five columns";

/// The diagnostic for a setting row of another width.
pub const NOT_SETTING_WIDTH: &'static str = "a setting row must have two columns";

/// The diagnostic for a row without a column.
pub const NO_COLUMN: &'static str = "a row holds no column";

/// The diagnostic for a query that must yield a row and yields none.
pub const NO_ROW: &'static str = "the query returned no rows";

/// Whether a failure is one of reading rows: a row that is not what it must
/// be, or more rows than can be held.
pub open spec fn from_rows(e: CommandError) -> bool {
    let m = e.message@;
    ||| m == NOT_TEXT@
    ||| m == NOT_OPTIONAL_TEXT@
    ||| m == NOT_INTEGER@
    ||| m == NOT_FLAG@
    ||| m == NOT_NUMBER@
    ||| m == NUMBER_OUT_OF_RANGE@
    ||| m == NOT_TASK_WIDTH@
    ||| m == NOT_BLOCK_WIDTH@
    ||| m == NOT_SETTING_WIDTH@
    ||| m == NO_COLUMN@
    ||| m == NO_ROW@
    ||| m == TOO_MANY_ROWS@
}

/// Whether a failure of a read is accounted for: it is the engine's, with
/// the engine's diagnostic text, or one of reading rows.
pub open spec fn read_failure(e: CommandError) -> bool {
    from_engine(e) || from_rows(e)
}

/// The text of a column that must hold text.
pub open spec fn text_in(datum: SqlDatum) -> Option<Seq<char>> {
    match datum {
        SqlDatum::Text(t) => Some(t),
        _ => None,
    }
}

/// The text of a column that holds text or nothing.
pub open spec fn opt_text_in(datum: SqlDatum) -> Option<Option<Seq<char>>> {
    match datum {
        SqlDatum::Text(t) => Some(Some(t)),
        SqlDatum::Null => Some(None),
        _ => None,
    }
}

/// The integer of a column that must hold one.
pub open spec fn integer_in(datum: SqlDatum) -> Option<i64> {
    match datum {
        SqlDatum::Integer(n) => Some(n),
        _ => None,
    }
}

/// The flag of a column that must hold an integer: set unless it is 0.
pub open spec fn flag_in(datum: SqlDatum) -> Option<bool> {
    match datum {
        SqlDatum::Integer(n) => Some(n != 0),
        _ => None,
    }
}

/// The number of a column that must hold an integer of 32 bits.
pub open spec fn small_in(datum: SqlDatum) -> Option<i32> {
    match datum {
        SqlDatum::Integer(n) => if i32::MIN <= n <= i32::MAX {
            Some(n as i32)
        } else {
            None
        },
        _ => None,
    }
}

/// The number of a column that holds an integer of 32 bits or nothing.
pub open spec fn opt_small_in(datum: SqlDatum) -> Option<Option<i32>> {
    match datum {
        SqlDatum::Null => Some(None),
        _ => match small_in(datum) {
            Some(n) => Some(Some(n)),
            None => None,
        },
    }
}

/// Reads a column that must hold text.
pub fn read_text(value: &SqlValue) -> (r: Result<String, CommandError>)
    ensures
        match r {
            Ok(t) => text_in(value@) == Some(t@),
            Err(e) => text_in(value@) is None && e.message@ == NOT_TEXT@,
        },
{
    match value {
        SqlValue::Text(t) => Ok(t.clone()),
        _ => Err(CommandError::new(NOT_TEXT)),
    }
}

/// Reads a column that holds text or nothing.
pub fn read_opt_text(value: &SqlValue) -> (r: Result<Option<String>, CommandError>)
    ensures
        match r {
            Ok(t) => opt_text_in(value@) == Some(opt_text(t)),
            Err(e) => opt_text_in(value@) is None && e.message@ == NOT_OPTIONAL_TEXT@,
        },
{
    match value {
        SqlValue::Text(t) => Ok(Some(t.clone())),
        SqlValue::Null => Ok(None),
        _ => Err(CommandError::new(NOT_OPTIONAL_TEXT)),
    }
}

/// Reads an integer.
pub fn read_integer(value: &SqlValue) -> (r: Result<i64, CommandError>)
    ensures
        match r {
            Ok(n) => integer_in(value@) == Some(n),
            Err(e) => integer_in(value@) is None && e.message@ == NOT_INTEGER@,
        },
{
    match value {
        SqlValue::Integer(n) => Ok(*n),
        _ => Err(CommandError::new(NOT_INTEGER)),
    }
}

/// Reads a flag.
pub fn read_flag(value: &SqlValue) -> (r: Result<bool, CommandError>)
    ensures
        match r {
            Ok(b) => flag_in(value@) == Some(b),
            Err(e) => flag_in(value@) is None && e.message@ == NOT_FLAG@,
        },
{
    match value {
        SqlValue::Integer(n) => Ok(*n != 0),
        _ => Err(CommandError::new(NOT_FLAG)),
    }
}

/// Reads an integer of 32 bits.
pub fn read_small(value: &SqlValue) -> (r: Result<i32, CommandError>)
    ensures
        match r {
            Ok(n) => small_in(value@) == Some(n),
            Err(e) => small_in(value@) is None && (e.message@ == NOT_NUMBER@ || e.message@
                == NUMBER_OUT_OF_RANGE@),
        },
{
    match value {
        SqlValue::Integer(n) => {
            if -0x8000_0000 <= *n && *n <= 0x7fff_ffff {
                Ok(*n as i32)
            } else {
                Err(CommandError::new(NUMBER_OUT_OF_RANGE))
            }
        },
        _ => Err(CommandError::new(NOT_NUMBER)),
    }
}

/// Reads an integer of 32 bits, or nothing.
pub fn read_opt_small(value: &SqlValue) -> (r: Result<Option<i32>, CommandError>)
    ensures
        match r {
            Ok(n) => opt_small_in(value@) == Some(n),
            Err(e) => opt_small_in(value@) is None && (e.message@ == NOT_NUMBER@ || e.message@
                == NUMBER_OUT_OF_RANGE@),
        },
{
    match value {
        SqlValue::Null => Ok(None),
        _ => match read_small(value) {
            Ok(n) => Ok(Some(n)),
            Err(e) => Err(e),
        },
    }
}

/// The columns of a task row, in the order in which they are selected and
/// written.
pub const TASK_WIDTH: usize = 10;

/// The task that a row of ten columns stands for: id, title, done, is_today,
/// est_minutes, notes, project, tags, created_at, due.  `None` where a column
/// other than the tags holds what it must not.  The tags are read leniently:
/// they are always present, and empty where the column holds no text or a
/// text that is no tag list.
pub open spec fn task_in(row: Seq<SqlDatum>) -> Option<TaskView> {
    if row.len() == 10 && text_in(row[0]) is Some && text_in(row[1]) is Some && flag_in(row[2]) is Some
        && flag_in(row[3]) is Some && opt_small_in(row[4]) is Some && opt_text_in(row[5]) is Some
        && opt_text_in(row[6]) is Some && opt_text_in(row[8]) is Some && opt_text_in(
        row[9],
    ) is Some {
        Some(
            TaskView {
                id: text_in(row[0])->0,
                title: text_in(row[1])->0,
                done: flag_in(row[2])->0,
                is_today: flag_in(row[3])->0,
                est_minutes: opt_small_in(row[4])->0,
                notes: opt_text_in(row[5])->0,
                project: opt_text_in(row[6])->0,
                tags: Some(stored_tags(text_in(row[7]))),
                created_at: opt_text_in(row[8])->0,
                due: opt_text_in(row[9])->0,
            },
        )
    } else {
        None
    }
}

/// Reads the tags column leniently.
fn read_tags(value: &SqlValue) -> (tags: Vec<String>)
    ensures
        tags.deep_view() == stored_tags(text_in(value@)),
{
    match value {
        SqlValue::Text(t) => decode_tags(Some(t.as_str())),
        _ => decode_tags(None),
    }
}

/// Reads a task from a row.
pub fn task_from_row(row: &Vec<SqlValue>) -> (r: Result<Task, CommandError>)
    ensures
        match r {
            Ok(task) => task_in(row.deep_view()) == Some(task@),
            Err(e) => task_in(row.deep_view()) is None && from_rows(e),
        },
{
    if row.len() != 10 {
        return Err(CommandError::new(NOT_TASK_WIDTH));
    }
    let ghost data = row.deep_view();
    assert(forall|i: int| 0 <= i < 10 ==> data[i] == row@[i]@);
    let id = match read_text(&row[0]) {
        Ok(v) => v,
        Err(e) => {
            return Err(e);
        },
    };
    let title = match read_text(&row[1]) {
        Ok(v) => v,
        Err(e) => {
            return Err(e);
        },
    };
    let done = match read_flag(&row[2]) {
        Ok(v) => v,
        Err(e) => {
            return Err(e);
        },
    };
    let is_today = match read_flag(&row[3]) {
        Ok(v) => v,
        Err(e) => {
            return Err(e);
        },
    };
    let est_minutes = match read_opt_small(&row[4]) {
        Ok(v) => v,
        Err(e) => {
            return Err(e);
        },
    };
    let notes = match read_opt_text(&row[5]) {
        Ok(v) => v,
        Err(e) => {
            return Err(e);
        },
    };
    let project = match read_opt_text(&row[6]) {
        Ok(v) => v,
        Err(e) => {
            return Err(e);
        },
    };
    let tags = read_tags(&row[7]);
    let created_at = match read_opt_text(&row[8]) {
        Ok(v) => v,
        Err(e) => {
            return Err(e);
        },
    };
    let due = match read_opt_text(&row[9]) {
        Ok(v) => v,
        Err(e) => {
            return Err(e);
        },
    };
    let task = Task {
        id,
        title,
        done,
        is_today,
        est_minutes,
        notes,
        project,
        tags: Some(tags),
        due,
        created_at,
    };
    assert(task@ == task_in(data)->0);
    Ok(task)
}

/// Whether `tasks` are what `rows` stand for, row by row.
pub open spec fn tasks_read(rows: Seq<Vec<SqlValue>>, tasks: Seq<Task>) -> bool {
    &&& tasks.len() == rows.len()
    &&& forall|i: int|
        0 <= i < rows.len() ==> task_in((#[trigger] rows[i]).deep_view()) == Some(tasks[i]@)
}

/// Reads one task from each row, in order; fails where some row is no task.
pub fn tasks_from_rows(rows: &Vec<Vec<SqlValue>>) -> (r: Result<Vec<Task>, CommandError>)
    ensures
        match r {
            Ok(tasks) => tasks_read(rows@, tasks@),
            Err(e) => from_rows(e) && exists|i: int|
                0 <= i < rows.len() && task_in((#[trigger] rows@[i]).deep_view()) is None,
        },
{
    let mut tasks: Vec<Task> = Vec::new();
    let mut i: usize = 0;
    while i < rows.len()
        invariant
            i <= rows.len(),
            tasks.len() == i,
            forall|j: int|
                0 <= j < i ==> task_in((#[trigger] rows@[j]).deep_view()) == Some(tasks@[j]@),
        decreases rows.len() - i,
    {
        match task_from_row(&rows[i]) {
            Ok(task) => tasks.push(task),
            Err(e) => {
                return Err(e);
            },
        }
        i += 1;
    }
    Ok(tasks)
}

/// The parameters with which a task is written, in column order; the tags go
/// as their encoded text, and what is absent goes as `Null`.
pub open spec fn task_data(task: TaskView, tags_text: Seq<char>) -> Seq<SqlDatum> {
    seq![
        SqlDatum::Text(task.id),
        SqlDatum::Text(task.title),
        flag_datum(task.done),
        flag_datum(task.is_today),
        match task.est_minutes {
            Some(n) => SqlDatum::Integer(n as i64),
            None => SqlDatum::Null,
        },
        text_or_null(task.notes),
        text_or_null(task.project),
        SqlDatum::Text(tags_text),
        text_or_null(task.created_at),
        text_or_null(task.due),
    ]
}

/// The parameter for a flag.
fn flag_param(flag: bool) -> (value: SqlValue)
    ensures
        value@ == flag_datum(flag),
{
    if flag {
        SqlValue::Integer(1)
    } else {
        SqlValue::Integer(0)
    }
}

/// The parameter for a text.
fn text_param(text: &String) -> (value: SqlValue)
    ensures
        value@ == SqlDatum::Text(text@),
{
    SqlValue::Text(text.clone())
}

/// The parameter for an optional text.
fn opt_text_param(text: &Option<String>) -> (value: SqlValue)
    ensures
        value@ == text_or_null(opt_text(*text)),
{
    match text {
        Some(t) => SqlValue::Text(t.clone()),
        None => SqlValue::Null,
    }
}

/// The parameters with which `task` is written.
pub fn task_params(task: &Task, tags_text: String) -> (params: Vec<SqlValue>)
    ensures
        params.deep_view() == task_data(task@, tags_text@),
        all_bindable(params@),
{
    let mut params: Vec<SqlValue> = Vec::new();
    params.push(text_param(&task.id));
    params.push(text_param(&task.title));
    params.push(flag_param(task.done));
    params.push(flag_param(task.is_today));
    params.push(
        match task.est_minutes {
            Some(n) => SqlValue::Integer(n as i64),
            None => SqlValue::Null,
        },
    );
    params.push(opt_text_param(&task.notes));
    params.push(opt_text_param(&task.project));
    params.push(SqlValue::Text(tags_text));
    params.push(opt_text_param(&task.created_at));
    params.push(opt_text_param(&task.due));
    assert(params.deep_view() =~= task_data(task@, tags_text@));
    params
}

/// The block that a row of five columns stands for: id, task_id, date,
/// start_slot, end_slot.  `None` where a column holds what it must not.
pub open spec fn block_in(row: Seq<SqlDatum>) -> Option<DayBlockView> {
    if row.len() == 5 && text_in(row[0]) is Some && opt_text_in(row[1]) is Some && text_in(row[2]) is Some
        && small_in(row[3]) is Some && small_in(row[4]) is Some {
        Some(
            DayBlockView {
                id: text_in(row[0])->0,
                task_id: opt_text_in(row[1])->0,
                date: text_in(row[2])->0,
                start_slot: small_in(row[3])->0 as int,
                end_slot: small_in(row[4])->0 as int,
            },
        )
    } else {
        None
    }
}

/// Reads a block from a row.
pub fn block_from_row(row: &Vec<SqlValue>) -> (r: Result<DayBlock, CommandError>)
    ensures
        match r {
            Ok(block) => block_in(row.deep_view()) == Some(block@),
            Err(e) => block_in(row.deep_view()) is None && from_rows(e),
        },
{
    if row.len() != 5 {
        return Err(CommandError::new(NOT_BLOCK_WIDTH));
    }
    let ghost data = row.deep_view();
    assert(forall|i: int| 0 <= i < 5 ==> data[i] == row@[i]@);
    let id = match read_text(&row[0]) {
        Ok(v) => v,
        Err(e) => {
            return Err(e);
        },
    };
    let task_id = match read_opt_text(&row[1]) {
        Ok(v) => v,
        Err(e) => {
            return Err(e);
        },
    };
    let date = match read_text(&row[2]) {
        Ok(v) => v,
        Err(e) => {
            return Err(e);
        },
    };
    let start_slot = match read_small(&row[3]) {
        Ok(v) => v,
        Err(e) => {
            return Err(e);
        },
    };
    let end_slot = match read_small(&row[4]) {
        Ok(v) => v,
        Err(e) => {
            return Err(e);
        },
    };
    Ok(DayBlock { id, task_id, date, start_slot, end_slot })
}

/// Whether `blocks` are what `rows` stand for, row by row.
pub open spec fn blocks_read(rows: Seq<Vec<SqlValue>>, blocks: Seq<DayBlock>) -> bool {
    &&& blocks.len() == rows.len()
    &&& forall|i: int|
        0 <= i < rows.len() ==> block_in((#[trigger] rows[i]).deep_view()) == Some(blocks[i]@)
}

/// Reads one block from each row, in order; fails where some row is no block.
pub fn blocks_from_rows(rows: &Vec<Vec<SqlValue>>) -> (r: Result<Vec<DayBlock>, CommandError>)
    ensures
        match r {
            Ok(blocks) => blocks_read(rows@, blocks@),
            Err(e) => from_rows(e) && exists|i: int|
                0 <= i < rows.len() && block_in((#[trigger] rows@[i]).deep_view()) is None,
        },
{
    let mut blocks: Vec<DayBlock> = Vec::new();
    let mut i: usize = 0;
    while i < rows.len()
        invariant
            i <= rows.len(),
            blocks.len() == i,
            forall|j: int|
                0 <= j < i ==> block_in((#[trigger] rows@[j]).deep_view()) == Some(blocks@[j]@),
        decreases rows.len() - i,
    {
        match block_from_row(&rows[i]) {
            Ok(block) => blocks.push(block),
            Err(e) => {
                return Err(e);
            },
        }
        i += 1;
    }
    Ok(blocks)
}

/// The parameters with which a block is written, in column order.
pub open spec fn block_data(block: DayBlockView) -> Seq<SqlDatum> {
    seq![
        SqlDatum::Text(block.id),
        text_or_null(block.task_id),
        SqlDatum::Text(block.date),
        SqlDatum::Integer(block.start_slot as i64),
        SqlDatum::Integer(block.end_slot as i64),
    ]
}

/// The parameters with which `block` is written.
pub fn block_params(block: &DayBlock) -> (params: Vec<SqlValue>)
    ensures
        params.deep_view() == block_data(block@),
        all_bindable(params@),
{
    let mut params: Vec<SqlValue> = Vec::new();
    params.push(text_param(&block.id));
    params.push(opt_text_param(&block.task_id));
    params.push(text_param(&block.date));
    params.push(SqlValue::Integer(block.start_slot as i64));
    params.push(SqlValue::Integer(block.end_slot as i64));
    assert(params.deep_view() =~= block_data(block@));
    params
}

/// The single text parameter of a statement that selects or deletes by a key.
pub fn key_params(key: &String) -> (params: Vec<SqlValue>)
    ensures
        params.deep_view() == seq![SqlDatum::Text(key@)],
        all_bindable(params@),
{
    let mut params: Vec<SqlValue> = Vec::new();
    params.push(text_param(key));
    assert(params.deep_view() =~= seq![SqlDatum::Text(key@)]);
    params
}

/// The setting that a row of two columns stands for: key, value.
pub open spec fn setting_in(row: Seq<SqlDatum>) -> Option<(Seq<char>, Seq<char>)> {
    if row.len() == 2 && text_in(row[0]) is Some && text_in(row[1]) is Some {
        Some((text_in(row[0])->0, text_in(row[1])->0))
    } else {
        None
    }
}

/// Reads a setting from a row.
pub fn setting_from_row(row: &Vec<SqlValue>) -> (r: Result<(String, String), CommandError>)
    ensures
        match r {
            Ok(pair) => setting_in(row.deep_view()) == Some((pair.0@, pair.1@)),
            Err(e) => setting_in(row.deep_view()) is None && from_rows(e),
        },
{
    if row.len() != 2 {
        return Err(CommandError::new(NOT_SETTING_WIDTH));
    }
    let ghost data = row.deep_view();
    assert(forall|i: int| 0 <= i < 2 ==> data[i] == row@[i]@);
    let key = match read_text(&row[0]) {
        Ok(v) => v,
        Err(e) => {
            return Err(e);
        },
    };
    let value = match read_text(&row[1]) {
        Ok(v) => v,
        Err(e) => {
            return Err(e);
        },
    };
    Ok((key, value))
}

/// The parameters with which a setting is written.
pub fn setting_params(key: &String, value: &String) -> (params: Vec<SqlValue>)
    ensures
        params.deep_view() == seq![SqlDatum::Text(key@), SqlDatum::Text(value@)],
        all_bindable(params@),
{
    let mut params: Vec<SqlValue> = Vec::new();
    params.push(text_param(key));
    params.push(text_param(value));
    assert(params.deep_view() =~= seq![SqlDatum::Text(key@), SqlDatum::Text(value@)]);
    params
}

} // verus!
