//! The text of the statements that the store hands to SQLite.

use vstd::prelude::*;

verus! {

/// Creates both tables where they are missing, in one transaction.
pub const CREATE_TABLES: &'static str = "
    BEGIN TRANSACTION;
    CREATE TABLE IF NOT EXISTS ents (
        id   INTEGER PRIMARY KEY NOT NULL,
        type INTEGER NOT NULL,
        data BLOB
    );
    CREATE TABLE IF NOT EXISTS assocs (
        id1                  INTEGER NOT NULL,
        id2                  INTEGER NOT NULL,
        type                 INTEGER NOT NULL,
        last_change_unixtime INTEGER NOT NULL,
        data                 BLOB,
        PRIMARY KEY (id1, id2, type)
    );
    COMMIT TRANSACTION;
";

/// Inserts an entity and yields the identifier it was given.
pub const INSERT_ENT: &'static str = "
    INSERT INTO ents (type, data)
    VALUES (?1, ?2)
    RETURNING id
";

/// Reads type and data of one entity.
pub const SELECT_ENT: &'static str = "
    SELECT type, data
    FROM ents
    WHERE id = ?1
";

/// Replaces the data of one entity.
pub const UPDATE_ENT: &'static str = "
    UPDATE ents
    SET data = (?2)
    WHERE id = ?1
";

/// Removes every association that starts or ends at one entity.
pub const DELETE_ASSOCS_OF_ENT: &'static str = "
    DELETE
    FROM assocs
    WHERE id1 = ?1
       OR id2 = ?1
";

/// Removes one entity and yields the type and data it had.
pub const DELETE_ENT: &'static str = "
    DELETE
    FROM ents
    WHERE id = ?1
    RETURNING type, data
";

/// Inserts an association.
pub const INSERT_ASSOC: &'static str = "
    INSERT INTO assocs (type, id1, id2, last_change_unixtime, data)
    VALUES (?1, ?2, ?3, ?4, ?5)
";

/// Removes one association and yields the time and data it had.
pub const DELETE_ASSOC: &'static str = "
    DELETE
    FROM assocs
    WHERE type = ?1 AND id1 = ?2 AND id2 = ?3
    RETURNING last_change_unixtime, data
";

/// Gives one association a new type and time and yields its time and data.
pub const RETYPE_ASSOC: &'static str = "
    UPDATE assocs
    SET type=?1, last_change_unixtime=?2
    WHERE type=?3 AND id1=?4 AND id2=?5
    RETURNING last_change_unixtime, data
";

/// Counts the associations of one type that start at one entity.
pub const COUNT_ASSOCS: &'static str = "
    SELECT count(*)
    FROM assocs
    WHERE type = ?1
      AND id1 = ?2
";

/// Reads one page of the associations of one type that start at one entity,
/// by ascending end point.
pub const SELECT_RANGE: &'static str = "
    SELECT id2, last_change_unixtime, data
    FROM assocs
    WHERE type = ?1
      AND id1 = ?2
      AND id2 > ?3
    ORDER BY id2 ASC
    LIMIT ?4
";

/// Reads the associations of one type that start at one entity and were
/// changed within a window of time, latest first.
pub const SELECT_TIME_RANGE: &'static str = "
    SELECT id2, last_change_unixtime, data
    FROM assocs
    WHERE type = ?1
      AND id1 = ?2
      AND last_change_unixtime >= ?3
      AND last_change_unixtime <= ?4
    ORDER BY last_change_unixtime DESC
    LIMIT ?5
";

/// The part that comes before the list of end points in the statement that
/// reads associations by end point.
pub const SELECT_BY_ENDS_HEAD: &'static str = "
    SELECT type, id1, id2, last_change_unixtime, data
    FROM assocs
    WHERE type = ?1
      AND id1 = ?2
      AND last_change_unixtime <= ?3
      AND last_change_unixtime >= ?4
      AND id2 in (";

/// The part that comes after the list of end points.
pub const SELECT_BY_ENDS_TAIL: &'static str = ")
";

/// The result code with which SQLite refuses a row whose primary key is
/// taken.
pub const SQLITE_CONSTRAINT_PRIMARYKEY: i32 = 1555;

/// `n` question marks with a comma between each two: the parameters of a
/// list of `n` values.
pub open spec fn placeholders(n: nat) -> Seq<char>
    decreases n,
{
    if n == 0 {
        Seq::empty()
    } else if n == 1 {
        seq!['?']
    } else {
        placeholders((n - 1) as nat) + seq![',', '?']
    }
}

/// `itertools::Itertools::intersperse` on `n` question marks with a comma as
/// the value put between them, collected into a string: each question mark
/// but the first has one comma before it.
#[verifier::external_body]
pub(crate) fn question_marks(n: usize) -> (s: String)
    ensures
        s@ == placeholders(n as nat),
{
    itertools::Itertools::intersperse(std::iter::repeat("?").take(n), ",").collect()
}

/// The statement that reads the associations of one type from one entity to
/// any of `n` end points, changed within a window of time.
pub fn select_by_ends(n: usize) -> (sql: String)
    ensures
        sql@ == SELECT_BY_ENDS_HEAD@ + placeholders(n as nat) + SELECT_BY_ENDS_TAIL@,
{
    let mut sql = String::from_str(SELECT_BY_ENDS_HEAD);
    let marks = question_marks(n);
    sql.append(marks.as_str());
    sql.append(SELECT_BY_ENDS_TAIL);
    sql
}

} // verus!
