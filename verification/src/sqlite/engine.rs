//! The calls into the SQLite engine.
//!
//! Each function here hands one statement to the engine and gives back what
//! the engine answered, as plain values. Nothing in this file is proved: what
//! a statement finds depends on what the database holds, so the functions
//! promise nothing of the rows they return. What the store promises of an
//! answer, it holds against the answer itself before it hands it on.
//!
//! One thing does not depend on the database. SQLite's integers are signed
//! and 64 bits wide, and rusqlite turns an unsigned number into such an
//! integer before it binds it to a statement; where the number is too large
//! the call fails with what rusqlite calls a conversion failure, whatever the
//! statement is. The functions through which the store counts, adds and looks
//! up associations say so.

use vstd::prelude::*;

verus! {

/// The largest number that SQLite holds.
pub const LARGEST_INTEGER: u64 = 0x7fff_ffff_ffff_ffff;

/// Whether SQLite holds the number `n`: its integers are signed and 64 bits
/// wide.
pub open spec fn fits(n: u64) -> bool {
    n <= LARGEST_INTEGER
}

/// An open SQLite database.
#[verifier::external_type_specification]
#[verifier::external_body]
pub struct ExConnection(rusqlite::Connection);

/// A transaction that is under way on a connection.
#[verifier::external_type_specification]
#[verifier::external_body]
pub struct ExTransaction<'conn>(rusqlite::Transaction<'conn>);

/// `rusqlite::Connection::open_in_memory`: opens a database that lives in
/// memory and goes away with the connection.
#[verifier::external_body]
pub(crate) fn open_in_memory() -> (r: Result<rusqlite::Connection, rusqlite::Error>) {
    rusqlite::Connection::open_in_memory()
}

/// `rusqlite::Connection::open`: opens the database file at `path`, which is
/// created if it is not there.
///
/// rusqlite hands the path to SQLite as a C string, and fails where the path
/// cannot be one: where a NUL character stands in it.
#[verifier::external_body]
pub(crate) fn open_path(path: &str) -> (r: Result<rusqlite::Connection, rusqlite::Error>)
    ensures
        r is Ok ==> !path@.contains('\0'),
{
    rusqlite::Connection::open(path)
}

/// `rusqlite::Connection::execute_batch`: runs the statements of `sql`, which
/// take no parameters, one after the other.
#[verifier::external_body]
pub(crate) fn execute_batch(conn: &rusqlite::Connection, sql: &str) -> (r: Result<
    (),
    rusqlite::Error,
>) {
    conn.execute_batch(sql)
}

/// `rusqlite::Connection::transaction`: begins a transaction, which is rolled
/// back when it is dropped without a commit.
#[verifier::external_body]
pub(crate) fn begin<'conn>(conn: &'conn mut rusqlite::Connection) -> (r: Result<
    rusqlite::Transaction<'conn>,
    rusqlite::Error,
>) {
    conn.transaction()
}

/// `rusqlite::Transaction::commit`: makes the transaction's changes lasting.
#[verifier::external_body]
pub(crate) fn commit<'conn>(txn: rusqlite::Transaction<'conn>) -> (r: Result<(), rusqlite::Error>) {
    txn.commit()
}

/// The connection a transaction runs on (`Deref` of `rusqlite::Transaction`).
#[verifier::external_body]
pub(crate) fn connection_of<'a, 'conn>(txn: &'a rusqlite::Transaction<'conn>) -> (conn:
    &'a rusqlite::Connection) {
    txn
}

/// `rusqlite::Error::sqlite_extended_error_code`: the extended result code
/// that SQLite gave for the failure, where the failure is SQLite's own.
#[verifier::external_body]
pub(crate) fn extended_code(err: &rusqlite::Error) -> (code: Option<i32>) {
    err.sqlite_extended_error_code()
}

/// `rusqlite::Connection::query_row` on a statement that inserts an entity:
/// binds the type and the data and reads the first column of the row that
/// comes back, the new identifier.
#[verifier::external_body]
pub(crate) fn insert_entity(conn: &rusqlite::Connection, sql: &str, ty: u64, data: &[u8]) -> (r:
    Result<u64, rusqlite::Error>) {
    conn.query_row(sql, (ty, data), |row| row.get(0))
}

/// `rusqlite::Statement::query_map` on a statement about one entity: binds
/// the identifier and collects the rows as pairs of type and data.
#[verifier::external_body]
pub(crate) fn entity_rows(conn: &rusqlite::Connection, sql: &str, id: u64) -> (r: Result<
    Vec<(u64, Vec<u8>)>,
    rusqlite::Error,
>) {
    let mut stmt = conn.prepare(sql)?;
    let rows = stmt.query_map((id,), |row| Ok((row.get(0)?, row.get(1)?)))?;
    rows.collect()
}

/// `rusqlite::Connection::execute` with one identifier bound: gives back the
/// number of rows that the statement changed.
#[verifier::external_body]
pub(crate) fn execute_by_id(conn: &rusqlite::Connection, sql: &str, id: u64) -> (r: Result<
    usize,
    rusqlite::Error,
>) {
    conn.execute(sql, (id,))
}

/// `rusqlite::Connection::execute` with an identifier and a blob bound: gives
/// back the number of rows that the statement changed.
#[verifier::external_body]
pub(crate) fn execute_with_data(conn: &rusqlite::Connection, sql: &str, id: u64, data: &[u8]) -> (r:
    Result<usize, rusqlite::Error>) {
    conn.execute(sql, (id, data))
}

/// `rusqlite::Connection::execute` on a statement that inserts an
/// association: binds type, start, end, time and data, in this order, and
/// gives back the number of rows that the statement changed.
///
/// Before it runs the statement rusqlite binds each parameter, and fails
/// where one cannot be bound; its `ToSql` for `u64` fails above the largest
/// signed integer. So the call does not succeed unless type, start and end
/// fit.
#[verifier::external_body]
pub(crate) fn insert_assoc(
    conn: &rusqlite::Connection,
    sql: &str,
    ty: u64,
    id1: u64,
    id2: u64,
    now: i64,
    data: &[u8],
) -> (r: Result<usize, rusqlite::Error>)
    ensures
        r is Ok ==> fits(ty) && fits(id1) && fits(id2),
{
    conn.execute(sql, (ty, id1, id2, now, data))
}

/// `rusqlite::Statement::query_map` on a statement about one association:
/// binds type, start and end, in this order, and collects the rows as pairs
/// of time and data.
#[verifier::external_body]
pub(crate) fn assoc_rows_by_key(
    conn: &rusqlite::Connection,
    sql: &str,
    ty: u64,
    id1: u64,
    id2: u64,
) -> (r: Result<Vec<(i64, Vec<u8>)>, rusqlite::Error>) {
    let mut stmt = conn.prepare(sql)?;
    let rows = stmt.query_map((ty, id1, id2), |row| Ok((row.get(0)?, row.get(1)?)))?;
    rows.collect()
}

/// `rusqlite::Statement::query_map` on a statement that retypes one
/// association: binds the new type, the time, then type, start and end of the
/// association, and collects the rows as pairs of time and data.
#[verifier::external_body]
pub(crate) fn assoc_rows_by_retype(
    conn: &rusqlite::Connection,
    sql: &str,
    new_ty: u64,
    now: i64,
    ty: u64,
    id1: u64,
    id2: u64,
) -> (r: Result<Vec<(i64, Vec<u8>)>, rusqlite::Error>) {
    let mut stmt = conn.prepare(sql)?;
    let rows = stmt.query_map((new_ty, now, ty, id1, id2), |row| Ok((row.get(0)?, row.get(1)?)))?;
    rows.collect()
}

/// `rusqlite::Statement::query_map` on a statement with a list of end points:
/// binds type, start, the later and the earlier time, then each end point,
/// and collects the rows as type, start, end, time and data.
///
/// Before it reads a row rusqlite binds the parameters one by one, and fails
/// where one cannot be bound or where their number is not that of the
/// statement; its `ToSql` for `u64` fails above the largest signed integer.
/// So the call does not succeed unless type, start and every end point fit.
#[verifier::external_body]
pub(crate) fn assoc_rows_by_ends(
    conn: &rusqlite::Connection,
    sql: &str,
    ty: u64,
    id1: u64,
    high: i64,
    low: i64,
    id2_set: &Vec<u64>,
) -> (r: Result<Vec<(u64, u64, u64, i64, Vec<u8>)>, rusqlite::Error>)
    ensures
        r is Ok ==> fits(ty) && fits(id1) && forall|i: int|
            0 <= i < id2_set.len() ==> fits(#[trigger] id2_set[i]),
{
    let mut stmt = conn.prepare(sql)?;
    let mut params: Vec<&dyn rusqlite::ToSql> = vec![&ty, &id1, &high, &low];
    params.extend(id2_set.iter().map(|id| id as &dyn rusqlite::ToSql));
    let rows = stmt.query_map(
        params.as_slice(),
        |row| Ok((row.get(0)?, row.get(1)?, row.get(2)?, row.get(3)?, row.get(4)?)),
    )?;
    rows.collect()
}

/// `rusqlite::Statement::query_row` on a statement that counts: binds type
/// and start and reads the first column of the first row.
///
/// Before it reads the row rusqlite binds both parameters, and fails where
/// one cannot be bound; its `ToSql` for `u64` fails above the largest signed
/// integer. So the call does not succeed unless type and start fit.
#[verifier::external_body]
pub(crate) fn count_rows(conn: &rusqlite::Connection, sql: &str, ty: u64, id1: u64) -> (r: Result<
    usize,
    rusqlite::Error,
>)
    ensures
        r is Ok ==> fits(ty) && fits(id1),
{
    let mut stmt = conn.prepare(sql)?;
    stmt.query_row((ty, id1), |row| row.get(0))
}

/// `rusqlite::Statement::query_map` on a statement for one page: binds type,
/// start, the end point to begin above and the size of the page, and collects
/// the rows as end point, time and data.
#[verifier::external_body]
pub(crate) fn edge_rows_after(
    conn: &rusqlite::Connection,
    sql: &str,
    ty: u64,
    id1: u64,
    after: u64,
    limit: usize,
) -> (r: Result<Vec<(u64, i64, Vec<u8>)>, rusqlite::Error>) {
    let mut stmt = conn.prepare(sql)?;
    let rows = stmt.query_map(
        (ty, id1, after, limit),
        |row| Ok((row.get(0)?, row.get(1)?, row.get(2)?)),
    )?;
    rows.collect()
}

/// `rusqlite::Statement::query_map` on a statement for a window of time:
/// binds type, start, the earlier and the later time and the largest number
/// of rows, and collects the rows as end point, time and data.
#[verifier::external_body]
pub(crate) fn edge_rows_between(
    conn: &rusqlite::Connection,
    sql: &str,
    ty: u64,
    id1: u64,
    low: i64,
    high: i64,
    limit: usize,
) -> (r: Result<Vec<(u64, i64, Vec<u8>)>, rusqlite::Error>) {
    let mut stmt = conn.prepare(sql)?;
    let rows = stmt.query_map(
        (ty, id1, low, high, limit),
        |row| Ok((row.get(0)?, row.get(1)?, row.get(2)?)),
    )?;
    rows.collect()
}

/// `chrono::Utc::now` and `DateTime::timestamp`: the time of the system
/// clock in whole seconds since the Unix epoch. Two calls need not agree.
/// With a clock that stands before the epoch chrono does not return.
#[verifier::external_body]
pub(crate) fn unix_now() -> (secs: i64) {
    chrono::Utc::now().timestamp()
}

} // verus!
