//! The table `tapes` behind an SQLite connection.
//!
//! The engine is reached through rusqlite. Nothing is assumed of what it
//! answers: every answer is examined here before the catalogue sees it.

use vstd::prelude::*;
use crate::error::{CatalogError, StorageFault};
use crate::tape::{descending, fields_filled, filled, Tape, TapeList};

verus! {

/// rusqlite's `Connection`: an open database. Nothing of its inside is seen
/// here.
#[verifier::external_type_specification]
#[verifier::external_body]
pub struct ExConnection(rusqlite::Connection);

/// rusqlite's `Error`. Nothing of its inside is seen here; `message_of` turns
/// it into text.
#[verifier::external_type_specification]
#[verifier::external_body]
pub struct ExEngineError(rusqlite::Error);

/// All rows, the newest first.
pub const SELECT_ALL: &'static str = "SELECT id, title, tape, timestamp FROM tapes ORDER BY id DESC";

/// A new row; the engine assigns its id and its timestamp.
pub const INSERT_ROW: &'static str = "INSERT INTO tapes (title, tape) VALUES (?1, ?2)";

/// New title and label for the row of one id.
pub const UPDATE_ROW: &'static str = "UPDATE tapes SET title = ?1, tape = ?2 WHERE id = ?3";

/// The row of one id leaves the table.
pub const DELETE_ROW: &'static str = "DELETE FROM tapes WHERE id = ?1";

/// A statement that writes, with what is bound to its parameters: the texts
/// to the first of them, the numbers to those that follow.
pub struct Statement<'a> {
    pub sql: &'static str,
    pub texts: Vec<&'a str>,
    pub numbers: Vec<u32>,
}

impl<'a> Statement<'a> {
    /// The insert of a row with this title and label.
    pub fn insert(title: &'a str, tape: &'a str) -> (statement: Statement<'a>)
        ensures
            statement.sql == INSERT_ROW,
            statement.texts@ == seq![title, tape],
            statement.numbers@ == Seq::<u32>::empty(),
    {
        Statement { sql: INSERT_ROW, texts: vec![title, tape], numbers: Vec::new() }
    }

    /// The update that gives the row of the id `id` this title and label.
    pub fn update(id: u32, title: &'a str, tape: &'a str) -> (statement: Statement<'a>)
        ensures
            statement.sql == UPDATE_ROW,
            statement.texts@ == seq![title, tape],
            statement.numbers@ == seq![id],
    {
        Statement { sql: UPDATE_ROW, texts: vec![title, tape], numbers: vec![id] }
    }

    /// The delete of the row of the id `id`.
    pub fn delete(id: u32) -> (statement: Statement<'a>)
        ensures
            statement.sql == DELETE_ROW,
            statement.texts@ == Seq::<&str>::empty(),
            statement.numbers@ == seq![id],
    {
        Statement { sql: DELETE_ROW, texts: Vec::new(), numbers: vec![id] }
    }
}

/// rusqlite's `Connection::execute` on one statement, its texts and then its
/// numbers bound to the parameters in order. It returns the number of rows
/// that the statement changed, or the engine's error. What that number is
/// depends on the table, so nothing is claimed of it.
#[verifier::external_body]
fn execute(db: &rusqlite::Connection, statement: &Statement) -> (changed: Result<
    usize,
    rusqlite::Error,
>) {
    let texts = statement.texts.iter().map(|t| rusqlite::types::Value::from(t.to_string()));
    let numbers = statement.numbers.iter().map(|n| rusqlite::types::Value::from(*n));
    db.execute(statement.sql, rusqlite::params_from_iter(texts.chain(numbers)))
}

/// rusqlite's `Connection::last_insert_rowid`: the row id of the latest
/// successful insert on this connection. Nothing is claimed of it.
pub assume_specification[ rusqlite::Connection::last_insert_rowid ](
    db: &rusqlite::Connection,
) -> i64
;

/// rusqlite's `Connection::prepare` and `Statement::query_map`, for a statement
/// without parameters whose rows hold an id, a title, a label and a timestamp in
/// this order. Each row becomes a record; a column of another type is the
/// engine's error. Which rows come back depends on the table, so nothing is
/// claimed of them.
#[verifier::external_body]
fn query_tapes(db: &rusqlite::Connection, sql: &str) -> (rows: Result<Vec<Tape>, rusqlite::Error>) {
    let mut statement = db.prepare(sql)?;
    let rows = statement.query_map(
        (),
        |row| Ok(Tape::new(row.get(0)?, row.get(1)?, row.get(2)?, row.get(3)?)),
    )?;
    rows.collect()
}

/// The `Display` text of a `rusqlite::Error`.
#[verifier::external_body]
fn message_of(fault: &rusqlite::Error) -> (text: String) {
    fault.to_string()
}

/// The catalogue's error for a failure of the engine whose message is `text`.
fn engine_fault(text: String) -> (err: CatalogError)
    ensures
        err == CatalogError::Storage(StorageFault::Engine(text)),
{
    CatalogError::Storage(StorageFault::Engine(text))
}

/// The record id that the row id `rowid` stands for. Row ids that no record id
/// can hold are refused.
pub fn record_id(rowid: i64) -> (res: Result<u32, CatalogError>)
    ensures
        0 <= rowid <= u32::MAX ==> res == Ok::<u32, CatalogError>(rowid as u32),
        !(0 <= rowid <= u32::MAX) ==> res == Err::<u32, CatalogError>(
            CatalogError::Storage(StorageFault::IdOutOfRange),
        ),
{
    if 0 <= rowid && rowid <= 0xffff_ffff {
        Ok(rowid as u32)
    } else {
        Err(CatalogError::Storage(StorageFault::IdOutOfRange))
    }
}

/// What an update or a delete by id amounts to when it changed `changed` rows:
/// with none changed, no row has the id.
pub fn row_found(changed: usize) -> (res: Result<(), CatalogError>)
    ensures
        changed > 0 ==> res == Ok::<(), CatalogError>(()),
        changed == 0 ==> res == Err::<(), CatalogError>(CatalogError::NotFound),
{
    if changed == 0 {
        Err(CatalogError::NotFound)
    } else {
        Ok(())
    }
}

/// The storage adapter: the one owner of the connection, and the only code
/// that speaks SQL.
pub struct TapeStore {
    db: rusqlite::Connection,
}

impl TapeStore {
    /// The connection that the adapter owns: every statement goes to it.
    pub closed spec fn connection(&self) -> rusqlite::Connection {
        self.db
    }

    /// The adapter of the open connection `db`, which it keeps for its lifetime.
    pub fn new(db: rusqlite::Connection) -> (store: TapeStore)
        ensures
            store.connection() == db,
    {
        TapeStore { db }
    }

    /// Scans the whole table, newest row first. A scan that the engine fails, or
    /// whose ids do not fall strictly, is an error: no list is made of it.
    pub fn list_all(&self) -> (res: Result<TapeList, CatalogError>)
        ensures
            match res {
                Ok(list) => descending(list@),
                Err(e) => e.is_scan_fault(),
            },
    {
        match query_tapes(&self.db, SELECT_ALL) {
            Ok(rows) => TapeList::from_rows(rows),
            Err(fault) => Err(engine_fault(message_of(&fault))),
        }
    }

    /// Writes a new row and returns the id that the engine gave it. With an
    /// empty title or label nothing is sent to the engine.
    pub fn insert(&self, title: &str, tape: &str) -> (res: Result<u32, CatalogError>)
        ensures
            !filled(title@, tape@) ==> res == Err::<u32, CatalogError>(CatalogError::Validation),
            filled(title@, tape@) ==> (res matches Err(e) ==> e.is_engine() || e
                == CatalogError::Storage(StorageFault::IdOutOfRange)),
    {
        if !fields_filled(title, tape) {
            return Err(CatalogError::Validation);
        }
        match execute(&self.db, &Statement::insert(title, tape)) {
            Ok(_) => record_id(self.db.last_insert_rowid()),
            Err(fault) => Err(engine_fault(message_of(&fault))),
        }
    }

    /// Gives the row of the id `id` a new title and label.
    pub fn update(&self, id: u32, title: &str, tape: &str) -> (res: Result<(), CatalogError>)
        ensures
            res matches Err(e) ==> e.is_engine() || e == CatalogError::NotFound,
    {
        match execute(&self.db, &Statement::update(id, title, tape)) {
            Ok(changed) => row_found(changed),
            Err(fault) => Err(engine_fault(message_of(&fault))),
        }
    }

    /// Removes the row of the id `id`.
    pub fn delete(&self, id: u32) -> (res: Result<(), CatalogError>)
        ensures
            res matches Err(e) ==> e.is_engine() || e == CatalogError::NotFound,
    {
        match execute(&self.db, &Statement::delete(id)) {
            Ok(changed) => row_found(changed),
            Err(fault) => Err(engine_fault(message_of(&fault))),
        }
    }
}

} // verus!
