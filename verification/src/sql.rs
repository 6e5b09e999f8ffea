//! The boundary to the SQLite engine.
//!
//! Everything the library sends to the engine is a statement text with
//! positional parameters.  Everything it reads back is a row of
//! [`SqlValue`]s.  The functions marked as trusted each wrap one item of
//! `rusqlite`; nothing is proved about what the engine does with a statement.

use vstd::prelude::*;
use vstd::std_specs::convert::FromSpecImpl;
use crate::error::CommandError;

verus! {

#[verifier::external_type_specification]
#[verifier::external_body]
pub struct ExConnection(rusqlite::Connection);

#[verifier::external_type_specification]
#[verifier::external_body]
pub struct ExTransaction<'conn>(rusqlite::Transaction<'conn>);

#[verifier::external_type_specification]
#[verifier::external_body]
pub struct ExStatement<'conn>(rusqlite::Statement<'conn>);

#[verifier::external_type_specification]
#[verifier::external_body]
pub struct ExRows<'stmt>(rusqlite::Rows<'stmt>);

#[verifier::external_type_specification]
#[verifier::external_body]
pub struct ExRow<'stmt>(rusqlite::Row<'stmt>);

#[verifier::external_type_specification]
#[verifier::external_body]
pub struct ExEngineError(rusqlite::Error);

#[verifier::external_type_specification]
#[verifier::external_body]
pub struct ExEngineValue(rusqlite::types::Value);

/// A value as SQLite stores it.  Floating-point and binary columns are
/// recognised but their payload is not carried: no table of this schema
/// holds either, and neither can be bound as a parameter.
#[derive(Debug, Clone)]
pub enum SqlValue {
    Null,
    Integer(i64),
    Real,
    Text(String),
    Blob,
}

/// What a [`SqlValue`] holds, as a mathematical value.
pub enum SqlDatum {
    Null,
    Integer(i64),
    Real,
    Text(Seq<char>),
    Blob,
}

impl View for SqlValue {
    type V = SqlDatum;

    open spec fn view(&self) -> SqlDatum {
        match self {
            SqlValue::Null => SqlDatum::Null,
            SqlValue::Integer(n) => SqlDatum::Integer(*n),
            SqlValue::Real => SqlDatum::Real,
            SqlValue::Text(t) => SqlDatum::Text(t@),
            SqlValue::Blob => SqlDatum::Blob,
        }
    }
}

impl DeepView for SqlValue {
    type V = SqlDatum;

    open spec fn deep_view(&self) -> SqlDatum {
        self@
    }
}

impl SqlValue {
    /// Whether the value can be bound as a statement parameter.
    pub open spec fn bindable(&self) -> bool {
        self is Null || self is Integer || self is Text
    }
}

/// The datum of an optional text: `Null` where there is none.
pub open spec fn text_or_null(text: Option<Seq<char>>) -> SqlDatum {
    match text {
        Some(t) => SqlDatum::Text(t),
        None => SqlDatum::Null,
    }
}

/// The datum of a flag: 1 for true, 0 for false.
pub open spec fn flag_datum(flag: bool) -> SqlDatum {
    SqlDatum::Integer(if flag { 1i64 } else { 0i64 })
}

/// Whether every value of `params` can be bound.
pub open spec fn all_bindable(params: Seq<SqlValue>) -> bool {
    forall|i: int| 0 <= i < params.len() ==> (#[trigger] params[i]).bindable()
}

/// Trusted: builds the `rusqlite::types::Value` that stands for a bindable
/// value.  Nothing is claimed about the result, which verified code only
/// hands on to the engine.
#[verifier::external_body]
fn engine_value(value: &SqlValue) -> (v: rusqlite::types::Value)
    requires
        value.bindable(),
{
    match value {
        SqlValue::Integer(i) => rusqlite::types::Value::Integer(*i),
        SqlValue::Text(t) => rusqlite::types::Value::Text(t.clone()),
        _ => rusqlite::types::Value::Null,
    }
}

/// The diagnostic text of an engine error: what its `Display` writes.
pub uninterp spec fn engine_text(error: rusqlite::Error) -> Seq<char>;

/// Whether a failure is the engine's: its message is the diagnostic text of
/// some engine error.
pub open spec fn from_engine(e: CommandError) -> bool {
    exists|cause: rusqlite::Error| e.message@ == #[trigger] engine_text(cause)
}

/// The diagnostic for a query that yields more rows than a vector holds.
pub const TOO_MANY_ROWS: &'static str = "the query yields more rows than can be held";

/// Trusted: `rusqlite::Error`'s `Display` text, which is a function of the
/// error alone and which `engine_text` names.
#[verifier::external_body]
fn engine_error_text(error: &rusqlite::Error) -> (text: String)
    ensures
        text@ == engine_text(*error),
{
    error.to_string()
}

/// Trusted: `rusqlite::Connection::execute_batch`, which runs every statement
/// of `sql` in turn.  Nothing is claimed about the outcome.
#[verifier::external_body]
fn engine_execute_batch(conn: &rusqlite::Connection, sql: &str) -> (r: Result<
    (),
    rusqlite::Error,
>) {
    conn.execute_batch(sql)
}

/// Trusted: `rusqlite::Connection::execute` with positional parameters; on
/// success the engine reports how many rows it changed.
#[verifier::external_body]
fn engine_execute(
    conn: &rusqlite::Connection,
    sql: &str,
    params: &Vec<rusqlite::types::Value>,
) -> (r: Result<usize, rusqlite::Error>) {
    conn.execute(sql, rusqlite::params_from_iter(params.iter()))
}

/// Trusted: `rusqlite::Connection::prepare`.
#[verifier::external_body]
fn engine_prepare<'conn>(conn: &'conn rusqlite::Connection, sql: &str) -> (r: Result<
    rusqlite::Statement<'conn>,
    rusqlite::Error,
>) {
    conn.prepare(sql)
}

/// Trusted: `rusqlite::Statement::query` with positional parameters.
#[verifier::external_body]
fn engine_query<'a, 'conn>(
    statement: &'a mut rusqlite::Statement<'conn>,
    params: &Vec<rusqlite::types::Value>,
) -> (r: Result<rusqlite::Rows<'a>, rusqlite::Error>) {
    statement.query(rusqlite::params_from_iter(params.iter()))
}

/// Trusted: `rusqlite::Rows::next`, which steps the cursor to the next row,
/// if there is one.
#[verifier::external_body]
fn engine_next_row<'a, 'stmt>(rows: &'a mut rusqlite::Rows<'stmt>) -> (r: Result<
    Option<&'a rusqlite::Row<'stmt>>,
    rusqlite::Error,
>) {
    rows.next()
}

/// Trusted: `rusqlite::Row::get_ref`, the value of one column of the current
/// row, and for a text `rusqlite::Row::get` at type `String`, which fails
/// with the engine's error where the text is not valid UTF-8.
#[verifier::external_body]
fn engine_column(row: &rusqlite::Row<'_>, index: usize) -> (r: Result<SqlValue, rusqlite::Error>) {
    Ok(match row.get_ref(index)? {
        rusqlite::types::ValueRef::Null => SqlValue::Null,
        rusqlite::types::ValueRef::Integer(i) => SqlValue::Integer(i),
        rusqlite::types::ValueRef::Real(_) => SqlValue::Real,
        rusqlite::types::ValueRef::Text(_) => SqlValue::Text(row.get(index)?),
        rusqlite::types::ValueRef::Blob(_) => SqlValue::Blob,
    })
}

/// Trusted: `rusqlite::Connection::transaction`.  The transaction rolls back
/// when it is dropped without a commit.
#[verifier::external_body]
pub(crate) fn engine_begin<'conn>(conn: &'conn mut rusqlite::Connection) -> (r: Result<
    rusqlite::Transaction<'conn>,
    rusqlite::Error,
>) {
    conn.transaction()
}

/// Trusted: `rusqlite::Transaction::commit`.
#[verifier::external_body]
fn engine_commit(tx: rusqlite::Transaction<'_>) -> (r: Result<(), rusqlite::Error>) {
    tx.commit()
}

/// Trusted: the connection that a transaction runs on (`Deref` of
/// `rusqlite::Transaction`).
#[verifier::external_body]
pub(crate) fn engine_connection<'a, 'conn>(tx: &'a rusqlite::Transaction<'conn>) -> (conn:
    &'a rusqlite::Connection) {
    tx
}

/// The library's failure for an engine error: its diagnostic text, unaltered.
pub(crate) fn engine_failure(error: rusqlite::Error) -> (e: CommandError)
    ensures
        e.message@ == engine_text(error),
        from_engine(e),
{
    CommandError { message: engine_error_text(&error) }
}

impl From<rusqlite::Error> for CommandError {
    fn from(error: rusqlite::Error) -> (e: CommandError)
        ensures
            e.message@ == engine_text(error),
    {
        engine_failure(error)
    }
}

impl FromSpecImpl<rusqlite::Error> for CommandError {
    open spec fn obeys_from_spec() -> bool {
        false
    }

    open spec fn from_spec(error: rusqlite::Error) -> CommandError {
        arbitrary()
    }
}

/// The engine values that stand for `params`, one for one.
fn bind(params: &Vec<SqlValue>) -> (bound: Vec<rusqlite::types::Value>)
    requires
        all_bindable(params@),
    ensures
        bound.len() == params.len(),
{
    let mut bound: Vec<rusqlite::types::Value> = Vec::new();
    let mut i: usize = 0;
    while i < params.len()
        invariant
            i <= params.len(),
            bound.len() == i,
            all_bindable(params@),
        decreases params.len() - i,
    {
        bound.push(engine_value(&params[i]));
        i += 1;
    }
    bound
}

/// The library's outcome for an outcome of the engine: what the engine
/// yielded where it succeeded, and the failure for its error where it did
/// not.
pub fn settle<T>(outcome: Result<T, rusqlite::Error>) -> (r: Result<T, CommandError>)
    ensures
        match outcome {
            Ok(value) => r == Ok::<T, CommandError>(value),
            Err(cause) => r matches Err(e) && e.message@ == engine_text(cause),
        },
        r matches Err(e) ==> from_engine(e),
{
    match outcome {
        Ok(value) => Ok(value),
        Err(e) => Err(engine_failure(e)),
    }
}

/// Runs a batch of statements that take no parameters.  Whether it succeeds
/// is the engine's to decide; a failure is the engine's.
pub(crate) fn run_batch(conn: &rusqlite::Connection, sql: &str) -> (r: Result<(), CommandError>)
    ensures
        r matches Err(e) ==> from_engine(e),
{
    settle(engine_execute_batch(conn, sql))
}

/// Runs one statement with its parameters and reports the number of rows that
/// the engine changed.  Whether it succeeds is the engine's to decide; a
/// failure is the engine's.
pub(crate) fn run(conn: &rusqlite::Connection, sql: &str, params: &Vec<SqlValue>) -> (r: Result<
    usize,
    CommandError,
>)
    requires
        all_bindable(params@),
    ensures
        r matches Err(e) ==> from_engine(e),
{
    let bound = bind(params);
    settle(engine_execute(conn, sql, &bound))
}

/// One statement as the library hands it to the engine.
#[derive(Debug)]
pub struct SqlStatement {
    pub sql: &'static str,
    pub params: Vec<SqlValue>,
}

/// What a [`SqlStatement`] holds, as mathematical values.
pub struct SqlStatementView {
    pub sql: Seq<char>,
    pub params: Seq<SqlDatum>,
}

impl View for SqlStatement {
    type V = SqlStatementView;

    open spec fn view(&self) -> SqlStatementView {
        SqlStatementView { sql: self.sql@, params: self.params.deep_view() }
    }
}

impl DeepView for SqlStatement {
    type V = SqlStatementView;

    open spec fn deep_view(&self) -> SqlStatementView {
        self@
    }
}

/// Whether every parameter of every statement of `script` can be bound.
pub open spec fn script_bindable(script: Seq<SqlStatement>) -> bool {
    forall|i: int| 0 <= i < script.len() ==> all_bindable((#[trigger] script[i]).params@)
}

/// Runs the statements of `script` in order inside one transaction, which is
/// committed only if every one of them succeeded.  On `Err` the transaction
/// was not committed and nothing of the script persists; the failure is the
/// engine's.
pub(crate) fn run_in_transaction(conn: &mut rusqlite::Connection, script: &Vec<SqlStatement>) -> (r:
    Result<(), CommandError>)
    requires
        script_bindable(script@),
    ensures
        r matches Err(e) ==> from_engine(e),
{
    let tx = match settle(engine_begin(conn)) {
        Ok(tx) => tx,
        Err(e) => {
            return Err(e);
        },
    };
    let mut i: usize = 0;
    while i < script.len()
        invariant
            i <= script.len(),
            script_bindable(script@),
        decreases script.len() - i,
    {
        match run(engine_connection(&tx), script[i].sql, &script[i].params) {
            Ok(_) => {},
            Err(e) => {
                return Err(e);
            },
        }
        i += 1;
    }
    commit(tx)
}

/// Commits a transaction.  Whether it succeeds is the engine's to decide; a
/// failure is the engine's.
pub(crate) fn commit(tx: rusqlite::Transaction<'_>) -> (r: Result<(), CommandError>)
    ensures
        r matches Err(e) ==> from_engine(e),
{
    settle(engine_commit(tx))
}

/// Reads the first `width` columns of the current row.  A row of no columns
/// is read without asking the engine, so it cannot fail.
fn read_row(row: &rusqlite::Row<'_>, width: usize) -> (r: Result<Vec<SqlValue>, CommandError>)
    ensures
        r matches Ok(values) ==> values.len() == width,
        r matches Err(e) ==> from_engine(e),
        width == 0 ==> r is Ok,
{
    let mut values: Vec<SqlValue> = Vec::new();
    let mut i: usize = 0;
    while i < width
        invariant
            i <= width,
            values.len() == i,
        decreases width - i,
    {
        match engine_column(row, i) {
            Ok(v) => values.push(v),
            Err(e) => {
                return Err(engine_failure(e));
            },
        }
        i += 1;
    }
    Ok(values)
}

/// Whether every row of `rows` has exactly `width` columns.
pub open spec fn rows_have_width(rows: Seq<Vec<SqlValue>>, width: nat) -> bool {
    forall|i: int| 0 <= i < rows.len() ==> (#[trigger] rows[i]).len() == width
}

/// Runs a query and reads every row it yields, `width` columns of each, in
/// the order in which the engine yields them.
pub(crate) fn fetch(
    conn: &rusqlite::Connection,
    sql: &str,
    params: &Vec<SqlValue>,
    width: usize,
) -> (r: Result<Vec<Vec<SqlValue>>, CommandError>)
    requires
        all_bindable(params@),
    ensures
        r matches Ok(rows) ==> rows_have_width(rows@, width as nat),
        r matches Err(e) ==> from_engine(e) || e.message@ == TOO_MANY_ROWS@,
{
    let bound = bind(params);
    let mut statement = match engine_prepare(conn, sql) {
        Ok(s) => s,
        Err(e) => {
            return Err(engine_failure(e));
        },
    };
    let mut cursor = match engine_query(&mut statement, &bound) {
        Ok(c) => c,
        Err(e) => {
            return Err(engine_failure(e));
        },
    };
    let mut rows: Vec<Vec<SqlValue>> = Vec::new();
    while rows.len() < usize::MAX
        invariant
            rows_have_width(rows@, width as nat),
        decreases usize::MAX - rows.len(),
    {
        match engine_next_row(&mut cursor) {
            Ok(Some(row)) => {
                match read_row(row, width) {
                    Ok(values) => rows.push(values),
                    Err(e) => {
                        return Err(e);
                    },
                }
            },
            Ok(None) => {
                return Ok(rows);
            },
            Err(e) => {
                return Err(engine_failure(e));
            },
        }
    }
    Err(CommandError::new(TOO_MANY_ROWS))
}

} // verus!
