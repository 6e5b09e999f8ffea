//! The connection owner, and what startup does before the stores may use it.

use vstd::prelude::*;
use vstd::string::*;
use crate::catalog::{shipped_catalog, shipped_probes};
use crate::error::CommandError;
use crate::migrations::{MigrationReport, follows_the_rules, run_failure, run_migrations};
use crate::sql::settle;

verus! {

/// The one handle to the database.  Every store works through it, and
/// whoever holds it exclusively is the only one that writes.
pub struct Database(pub rusqlite::Connection);

/// The pattern of a backup's time stamp: year, month, day, hour, minute.  Two
/// backups within one minute share a stamp, and the later one replaces the
/// earlier.
pub const BACKUP_STAMP_FORMAT: &'static str = "%Y%m%d%H%M";

#[verifier::external_type_specification]
#[verifier::external_body]
pub struct ExPathBuf(std::path::PathBuf);

/// Trusted: `rusqlite::Connection::open`, which opens the database file at
/// `path` and creates it where there is none.
#[verifier::external_body]
fn engine_open(path: &std::path::PathBuf) -> (r: Result<rusqlite::Connection, rusqlite::Error>) {
    rusqlite::Connection::open(path)
}

/// The extension that replaces a database file's own to name its backup:
/// `backup.`, the time stamp, `.db`.
pub open spec fn backup_extension_of(stamp: Seq<char>) -> Seq<char> {
    "backup."@ + stamp + ".db"@
}

/// The extension of the backup taken at the time that `stamp` names.
pub fn backup_extension(stamp: &str) -> (extension: String)
    ensures
        extension@ == backup_extension_of(stamp@),
{
    let mut extension = String::from_str("backup.");
    extension.append(stamp);
    extension.append(".db");
    extension
}

/// Opens the database file at `path` and brings its schema up to date; with
/// the handle comes the report of what the run did.  Any failure is fatal to
/// startup: no handle is returned for a database that could not be opened or
/// migrated.
pub fn init_db(path: &std::path::PathBuf) -> (r: Result<(Database, MigrationReport), CommandError>)
    ensures
        r matches Ok(opened) ==> follows_the_rules(opened.1, shipped_catalog(), shipped_probes()),
        r matches Err(e) ==> run_failure(e),
{
    let mut conn = match settle(engine_open(path)) {
        Ok(conn) => conn,
        Err(e) => {
            return Err(e);
        },
    };
    match run_migrations(&mut conn) {
        Ok(report) => Ok((Database(conn), report)),
        Err(e) => Err(e),
    }
}

} // verus!
