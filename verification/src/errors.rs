//! The ways in which the store can fail.

use crate::text::{decimal, decimal_string};
use crate::types::{AssocType, EntityId};
use vstd::prelude::*;
use vstd::string::StringExecFns;

verus! {

/// The error type of the SQLite engine underneath the store.
#[verifier::external_type_specification]
#[verifier::external_body]
pub struct ExSqliteError(rusqlite::Error);

/// Failures of the SQLite backend.
#[derive(Debug, PartialEq)]
pub enum TeaSqliteError {
    /// The engine refused a statement or could not convert a value.
    SqliteStorageError(rusqlite::Error),
    /// The engine answered a query with rows that the query cannot yield: too
    /// many of them, out of order, or outside of what was asked for.
    UnexpectedRows,
}

/// `Display` of `rusqlite::Error`: the engine's own words for the failure.
#[verifier::external_body]
fn engine_words(err: &rusqlite::Error) -> (words: String) {
    format!("{}", err)
}

impl TeaSqliteError {
    /// Wraps an engine error as the store's storage error.
    pub fn wrap(err: rusqlite::Error) -> (e: TeaError)
        ensures
            e == TeaError::StorageError(TeaSqliteError::SqliteStorageError(err)),
    {
        TeaError::StorageError(TeaSqliteError::SqliteStorageError(err))
    }
}

/// Every way in which an operation of the store can fail.
///
/// Two families: violations of the data model (a missing entity, a page that
/// is too large, a count of changed rows that cannot be) and failures of the
/// layer underneath.
#[derive(Debug, PartialEq)]
pub enum TeaError {
    /// No entity has this identifier.
    EntNotFound(EntityId),
    /// An entity with this identifier exists already.
    EntAlreadyExists(EntityId),
    /// No association has this key.
    AssocNotFound {
        /// The type that was looked for.
        ty: AssocType,
        /// The entity the association would start at.
        id1: EntityId,
        /// The entity the association would end at.
        id2: EntityId,
    },
    /// An association with this key exists already.
    AssocAlreadyExists {
        /// The type of the association.
        ty: AssocType,
        /// The entity it starts at.
        id1: EntityId,
        /// The entity it ends at.
        id2: EntityId,
    },
    /// A statement on one association changed another number of rows than
    /// the one it was meant for.
    AssocUpdateModifiedTooManyRows {
        /// The type of the association.
        ty: AssocType,
        /// The entity it starts at.
        id1: EntityId,
        /// The entity it ends at.
        id2: EntityId,
        /// The number of rows that were changed.
        modified: usize,
        /// The number of rows that should have been changed.
        expected: usize,
    },
    /// A range query asked for a larger page than the store serves.
    AssocRangePageTooLarge {
        /// The page size that was asked for.
        requested_limit: usize,
        /// The largest page size the store serves.
        maximum_limit: usize,
    },
    /// A statement on one entity changed another number of rows than the one
    /// it was meant for.
    EntUpdateModifiedTooManyRows {
        /// The entity that was to be changed.
        id: EntityId,
        /// The number of rows that were changed.
        modified: usize,
        /// The number of rows that should have been changed.
        expected: usize,
    },
    /// The storage layer failed.
    StorageError(TeaSqliteError),
    /// An identifier was zero.
    ZeroIsNotAValidID,
    /// A type tag was zero.
    ZeroIsNotAValidType,
    /// A holder of the shared connection failed while holding it.
    SharedResourcePoisoned,
}

/// The text of the key of an association: `(type:start->end)`, or with a
/// blank after the colon where `spaced`.
pub open spec fn key_text(ty: AssocType, id1: EntityId, id2: EntityId, spaced: bool) -> Seq<char> {
    "("@ + ty.text() + (if spaced {
        ": "@
    } else {
        ":"@
    }) + id1.text() + "->"@ + id2.text() + ")"@
}

/// The key of an association as text.
fn key_string(ty: AssocType, id1: EntityId, id2: EntityId, spaced: bool) -> (s: String)
    ensures
        s@ == key_text(ty, id1, id2, spaced),
{
    let mut s = String::from_str("(");
    let ty = ty.to_string();
    s.append(ty.as_str());
    if spaced {
        s.append(": ");
    } else {
        s.append(":");
    }
    let id1 = id1.to_string();
    s.append(id1.as_str());
    s.append("->");
    let id2 = id2.to_string();
    s.append(id2.as_str());
    s.append(")");
    s
}

impl TeaError {
    /// What the error says. Where the engine refused a statement, this is how
    /// the text begins; it goes on with the engine's own words.
    pub open spec fn text(self) -> Seq<char> {
        match self {
            TeaError::EntNotFound(id) => "couldn't find entity "@ + id.text(),
            TeaError::EntAlreadyExists(id) => "entity "@ + id.text() + " already exists"@,
            TeaError::AssocNotFound { ty, id1, id2 } => "couldn't find assoc "@ + key_text(
                ty,
                id1,
                id2,
                true,
            ),
            TeaError::AssocAlreadyExists { ty, id1, id2 } => "assoc "@ + key_text(
                ty,
                id1,
                id2,
                false,
            ) + " already exists"@,
            TeaError::AssocUpdateModifiedTooManyRows { ty, id1, id2, modified, expected } =>
                "CRITICAL DATA MODEL ERROR: we modified "@ + decimal(modified as nat)
                    + " rows updating assoc "@ + key_text(ty, id1, id2, false)
                    + " but we were expecting to modify "@ + decimal(expected as nat),
            TeaError::AssocRangePageTooLarge { requested_limit, maximum_limit } =>
                "cannot return more than "@ + decimal(maximum_limit as nat)
                    + " requests per page of assocs ("@ + decimal(requested_limit as nat)
                    + " was requested)"@,
            TeaError::EntUpdateModifiedTooManyRows { id, modified, expected } =>
                "CRITICAL DATA MODEL ERROR: we modified "@ + decimal(modified as nat)
                    + " rows updating id "@ + id.text() + " but we were expecting to modify "@
                    + decimal(expected as nat),
            TeaError::StorageError(TeaSqliteError::SqliteStorageError(_)) =>
                "storage layer error: rusqlite error: "@,
            TeaError::StorageError(TeaSqliteError::UnexpectedRows) =>
                "storage layer error: the rows do not fit the query"@,
            TeaError::ZeroIsNotAValidID => "got an id with the value zero"@,
            TeaError::ZeroIsNotAValidType => "got a type with the value zero"@,
            TeaError::SharedResourcePoisoned =>
                "a thread panicked while holding a shared TeaConnection"@,
        }
    }

    /// Whether the error carries an error of the engine, with words of its
    /// own.
    pub open spec fn has_engine_words(self) -> bool {
        self matches TeaError::StorageError(TeaSqliteError::SqliteStorageError(_))
    }

    /// What the error says. Where the engine refused a statement, the text
    /// begins as `text` has it and goes on with the engine's own words.
    pub fn to_string(&self) -> (s: String)
        ensures
            !self.has_engine_words() ==> s@ == self.text(),
            self.has_engine_words() ==> exists|words: Seq<char>| s@ == self.text() + words,
    {
        match self {
            TeaError::EntNotFound(id) => {
                let mut s = String::from_str("couldn't find entity ");
                let id = id.to_string();
                s.append(id.as_str());
                s
            },
            TeaError::EntAlreadyExists(id) => {
                let mut s = String::from_str("entity ");
                let id = id.to_string();
                s.append(id.as_str());
                s.append(" already exists");
                s
            },
            TeaError::AssocNotFound { ty, id1, id2 } => {
                let mut s = String::from_str("couldn't find assoc ");
                let key = key_string(*ty, *id1, *id2, true);
                s.append(key.as_str());
                s
            },
            TeaError::AssocAlreadyExists { ty, id1, id2 } => {
                let mut s = String::from_str("assoc ");
                let key = key_string(*ty, *id1, *id2, false);
                s.append(key.as_str());
                s.append(" already exists");
                s
            },
            TeaError::AssocUpdateModifiedTooManyRows { ty, id1, id2, modified, expected } => {
                let mut s = String::from_str("CRITICAL DATA MODEL ERROR: we modified ");
                let modified = decimal_string(*modified as u64);
                s.append(modified.as_str());
                s.append(" rows updating assoc ");
                let key = key_string(*ty, *id1, *id2, false);
                s.append(key.as_str());
                s.append(" but we were expecting to modify ");
                let expected = decimal_string(*expected as u64);
                s.append(expected.as_str());
                s
            },
            TeaError::AssocRangePageTooLarge { requested_limit, maximum_limit } => {
                let mut s = String::from_str("cannot return more than ");
                let maximum = decimal_string(*maximum_limit as u64);
                s.append(maximum.as_str());
                s.append(" requests per page of assocs (");
                let requested = decimal_string(*requested_limit as u64);
                s.append(requested.as_str());
                s.append(" was requested)");
                s
            },
            TeaError::EntUpdateModifiedTooManyRows { id, modified, expected } => {
                let mut s = String::from_str("CRITICAL DATA MODEL ERROR: we modified ");
                let modified = decimal_string(*modified as u64);
                s.append(modified.as_str());
                s.append(" rows updating id ");
                let id = id.to_string();
                s.append(id.as_str());
                s.append(" but we were expecting to modify ");
                let expected = decimal_string(*expected as u64);
                s.append(expected.as_str());
                s
            },
            TeaError::StorageError(TeaSqliteError::SqliteStorageError(err)) => {
                let mut s = String::from_str("storage layer error: rusqlite error: ");
                let words = engine_words(err);
                s.append(words.as_str());
                assert(s@ == self.text() + words@);
                s
            },
            TeaError::StorageError(TeaSqliteError::UnexpectedRows) => String::from_str(
                "storage layer error: the rows do not fit the query",
            ),
            TeaError::ZeroIsNotAValidID => String::from_str("got an id with the value zero"),
            TeaError::ZeroIsNotAValidType => String::from_str("got a type with the value zero"),
            TeaError::SharedResourcePoisoned => String::from_str(
                "a thread panicked while holding a shared TeaConnection",
            ),
        }
    }
}

} // verus!
