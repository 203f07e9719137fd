//! The store on a SQLite database.
//!
//! Two tables hold the store: `ents(id, type, data)` with `id` as its key, and
//! `assocs(id1, id2, type, last_change_unixtime, data)` with `(id1, id2,
//! type)` as its key. Times are whole seconds since the Unix epoch.

pub mod engine;
pub mod rows;
pub mod statements;

use crate::connection::{is_assoc_failure, TeaConnection};
use crate::pages::{all_from, all_within, distinct_ends, ends_among};
use crate::errors::{TeaError, TeaSqliteError};
use crate::tunables::Tunables;
use crate::types::{
    AssocRangeAfter, AssocRangeLimit, AssocStorage, AssocType, EntityId, EntityType,
};
use vstd::prelude::*;

verus! {

/// A store of entities and associations in a SQLite database.
pub struct TeaSqliteConnection {
    conn: rusqlite::Connection,
    tunables: Tunables,
}

impl TeaSqliteConnection {
    /// The page sizes the store works with.
    pub closed spec fn tunables(&self) -> Tunables {
        self.tunables
    }

    /// Opens the database file at `db`, creates the tables where they are
    /// missing, and works with the page sizes of [`Tunables::new`].
    ///
    /// A path with a NUL character in it names no file: the call fails.
    pub fn new(db: &str) -> (r: Result<Self, TeaError>)
        ensures
            r is Ok ==> r->Ok_0.tunables() == Tunables::new(),
            r is Ok ==> !db@.contains('\0'),
            r is Err ==> r->Err_0 is StorageError,
    {
        let conn = match engine::open_path(db) {
            Ok(conn) => conn,
            Err(e) => {
                return Err(TeaSqliteError::wrap(e));
            },
        };
        let mut tc = TeaSqliteConnection { conn, tunables: Tunables::new() };
        match tc.initialize() {
            Ok(()) => Ok(tc),
            Err(e) => Err(e),
        }
    }

    /// Opens a database in memory, creates the tables, and works with the
    /// page sizes of [`Tunables::new`].
    pub fn new_in_memory() -> (r: Result<Self, TeaError>)
        ensures
            r is Ok ==> r->Ok_0.tunables() == Tunables::new(),
            r is Err ==> r->Err_0 is StorageError,
    {
        let conn = match engine::open_in_memory() {
            Ok(conn) => conn,
            Err(e) => {
                return Err(TeaSqliteError::wrap(e));
            },
        };
        let mut tc = TeaSqliteConnection { conn, tunables: Tunables::new() };
        match tc.initialize() {
            Ok(()) => Ok(tc),
            Err(e) => Err(e),
        }
    }

    /// The connection to the database underneath.
    pub closed spec fn database(&self) -> rusqlite::Connection {
        self.conn
    }

    /// The store on `conn`, with the page sizes of [`Tunables::new`]. The
    /// tables are not created: see `initialize`.
    pub closed spec fn on(conn: rusqlite::Connection) -> Self {
        TeaSqliteConnection { conn, tunables: Tunables::initial() }
    }

    /// A store made from a connection works on that connection, with the
    /// page sizes of [`Tunables::new`].
    pub proof fn on_keeps_the_connection(conn: rusqlite::Connection)
        ensures
            Self::on(conn).database() == conn,
            Self::on(conn).tunables() == Tunables::initial(),
    {
    }

    /// The connection to the database underneath, for what the store does
    /// not offer.
    pub fn connection(&self) -> (conn: &rusqlite::Connection)
        ensures
            *conn == self.database(),
    {
        &self.conn
    }

    /// The page sizes the store works with.
    pub fn page_sizes(&self) -> (t: Tunables)
        ensures
            t == self.tunables(),
    {
        self.tunables
    }

    /// Sets the page sizes, from the next range query on. The database is
    /// not touched.
    pub fn set_page_sizes(&mut self, tunables: Tunables)
        ensures
            final(self).tunables() == tunables,
            final(self).database() == old(self).database(),
    {
        self.tunables = tunables;
    }

    /// Adds the association `(ty, id1, id2)` with `data`, as changed at
    /// `now`, in seconds since the Unix epoch.
    ///
    /// An association that is there already is not overwritten: the call
    /// fails and says that the association exists. SQLite holds no number
    /// above [`engine::LARGEST_INTEGER`]: a type or an end point above it
    /// cannot be stored, and the call fails.
    pub fn assoc_add_at(
        &mut self,
        ty: AssocType,
        id1: EntityId,
        id2: EntityId,
        data: &[u8],
        now: i64,
    ) -> (r: Result<(), TeaError>)
        ensures
            final(self).tunables() == old(self).tunables(),
            r is Ok ==> engine::fits(ty.value()) && engine::fits(id1.value()) && engine::fits(
                id2.value(),
            ),
            r is Err ==> r->Err_0 == (TeaError::AssocAlreadyExists { ty, id1, id2 })
                || r->Err_0 is StorageError,
    {
        let inserted = match engine::insert_assoc(
            &self.conn,
            statements::INSERT_ASSOC,
            ty.as_u64(),
            id1.as_u64(),
            id2.as_u64(),
            now,
            data,
        ) {
            Ok(changed) => Ok(changed),
            Err(e) => {
                let code = engine::extended_code(&e);
                Err((code, e))
            },
        };
        rows::added_assoc(ty, id1, id2, inserted)
    }

    /// Gives the association `(ty, id1, id2)` the type `new_ty`, as changed
    /// at `now`, in seconds since the Unix epoch, and returns it as it then
    /// is.
    ///
    /// Where an association `(new_ty, id1, id2)` is there already, the
    /// storage refuses the change.
    pub fn assoc_change_type_at(
        &mut self,
        ty: AssocType,
        id1: EntityId,
        id2: EntityId,
        new_ty: AssocType,
        now: i64,
    ) -> (r: Result<AssocStorage, TeaError>)
        ensures
            final(self).tunables() == old(self).tunables(),
            r is Ok ==> r->Ok_0.ty == new_ty && r->Ok_0.id1 == id1 && r->Ok_0.id2 == id2
                && r->Ok_0.last_change == now,
            r is Err ==> is_assoc_failure(r->Err_0, ty, id1, id2) && !(r->Err_0
                is SharedResourcePoisoned),
    {
        let rows = match engine::assoc_rows_by_retype(
            &self.conn,
            statements::RETYPE_ASSOC,
            new_ty.as_u64(),
            now,
            ty.as_u64(),
            id1.as_u64(),
            id2.as_u64(),
        ) {
            Ok(rows) => rows,
            Err(e) => {
                return Err(TeaSqliteError::wrap(e));
            },
        };
        match rows::assoc_from_rows(ty, id1, id2, new_ty, rows) {
            Ok(assoc) => rows::retyped_at(assoc, now),
            Err(e) => Err(e),
        }
    }

    /// The associations of type `ty` from `id1` to an entity of `id2_set`
    /// that were last changed between `low` and `high`, both included and in
    /// seconds since the Unix epoch.
    ///
    /// SQLite holds no number above [`engine::LARGEST_INTEGER`]: with a type,
    /// a start or an end point above it the question cannot be put, and the
    /// call fails, also where no such association could be there.
    pub fn assoc_get_between(
        &mut self,
        ty: AssocType,
        id1: EntityId,
        id2_set: &[EntityId],
        high: i64,
        low: i64,
    ) -> (r: Result<Vec<AssocStorage>, TeaError>)
        ensures
            final(self).tunables() == old(self).tunables(),
            r is Ok ==> all_from(r->Ok_0@, ty, id1) && ends_among(r->Ok_0@, id2_set@)
                && all_within(r->Ok_0@, low, high) && distinct_ends(r->Ok_0@),
            r is Ok ==> engine::fits(ty.value()) && engine::fits(id1.value()) && forall|i: int|
                0 <= i < id2_set.len() ==> engine::fits((#[trigger] id2_set[i]).value()),
            r is Err ==> r->Err_0 is ZeroIsNotAValidID || r->Err_0 is ZeroIsNotAValidType
                || r->Err_0 is StorageError,
    {
        let sql = statements::select_by_ends(id2_set.len());
        let ends = rows::raw_ids(id2_set);
        let rows = match engine::assoc_rows_by_ends(
            &self.conn,
            sql.as_str(),
            ty.as_u64(),
            id1.as_u64(),
            high,
            low,
            &ends,
        ) {
            Ok(rows) => rows,
            Err(e) => {
                return Err(TeaSqliteError::wrap(e));
            },
        };
        assert forall|i: int| 0 <= i < id2_set.len() implies engine::fits(
            (#[trigger] id2_set[i]).value(),
        ) by {
            assert(engine::fits(ends[i]));
        }
        match rows::assocs_from_rows(rows) {
            Ok(found) => rows::found_by_ends(found, ty, id1, id2_set, low, high),
            Err(e) => Err(e),
        }
    }
}

impl From<rusqlite::Connection> for TeaSqliteConnection {
    /// The store on `conn`, with the page sizes of [`Tunables::new`]. The
    /// tables are not created: see `initialize`.
    fn from(conn: rusqlite::Connection) -> (tc: Self) {
        TeaSqliteConnection { conn, tunables: Tunables::new() }
    }
}

impl vstd::std_specs::convert::FromSpecImpl<rusqlite::Connection> for TeaSqliteConnection {
    open spec fn obeys_from_spec() -> bool {
        true
    }

    open spec fn from_spec(conn: rusqlite::Connection) -> Self {
        TeaSqliteConnection::on(conn)
    }
}

impl TeaConnection for TeaSqliteConnection {
    fn initialize(&mut self) -> (r: Result<(), TeaError>)
        ensures
            final(self).tunables() == old(self).tunables(),
            r is Err ==> r->Err_0 is StorageError,
    {
        match engine::execute_batch(&self.conn, statements::CREATE_TABLES) {
            Ok(()) => Ok(()),
            Err(e) => Err(TeaSqliteError::wrap(e)),
        }
    }

    fn ent_add(&mut self, ty: EntityType, data: &[u8]) -> (r: Result<EntityId, TeaError>)
        ensures
            final(self).tunables() == old(self).tunables(),
            r is Err ==> r->Err_0 is ZeroIsNotAValidID || r->Err_0 is StorageError,
    {
        match engine::insert_entity(&self.conn, statements::INSERT_ENT, ty.as_u64(), data) {
            Ok(raw) => EntityId::from_u64(raw),
            Err(e) => Err(TeaSqliteError::wrap(e)),
        }
    }

    fn ent_get(&mut self, id: EntityId) -> (r: Result<(EntityType, Vec<u8>), TeaError>)
        ensures
            final(self).tunables() == old(self).tunables(),
            r is Err ==> !(r->Err_0 is SharedResourcePoisoned),
    {
        match engine::entity_rows(&self.conn, statements::SELECT_ENT, id.as_u64()) {
            Ok(rows) => rows::entity_from_rows(id, rows),
            Err(e) => Err(TeaSqliteError::wrap(e)),
        }
    }

    fn ent_update(&mut self, id: EntityId, ty: EntityType, data: &[u8]) -> (r: Result<
        (EntityType, Vec<u8>),
        TeaError,
    >)
        ensures
            final(self).tunables() == old(self).tunables(),
            r is Err ==> !(r->Err_0 is SharedResourcePoisoned),
    {
        let txn = match engine::begin(&mut self.conn) {
            Ok(txn) => txn,
            Err(e) => {
                return Err(TeaSqliteError::wrap(e));
            },
        };
        let found = match engine::entity_rows(
            engine::connection_of(&txn),
            statements::SELECT_ENT,
            id.as_u64(),
        ) {
            Ok(rows) => rows,
            Err(e) => {
                return Err(TeaSqliteError::wrap(e));
            },
        };
        let before = match rows::entity_from_rows(id, found) {
            Ok(before) => before,
            Err(e) => {
                return Err(e);
            },
        };
        let changed = match engine::execute_with_data(
            engine::connection_of(&txn),
            statements::UPDATE_ENT,
            id.as_u64(),
            data,
        ) {
            Ok(changed) => changed,
            Err(e) => {
                return Err(TeaSqliteError::wrap(e));
            },
        };
        let result = rows::replaced_entity(id, before, changed);
        match engine::commit(txn) {
            Ok(()) => result,
            Err(e) => Err(TeaSqliteError::wrap(e)),
        }
    }

    fn ent_delete(&mut self, id: EntityId) -> (r: Result<(EntityType, Vec<u8>), TeaError>)
        ensures
            final(self).tunables() == old(self).tunables(),
            r is Err ==> !(r->Err_0 is SharedResourcePoisoned),
    {
        let txn = match engine::begin(&mut self.conn) {
            Ok(txn) => txn,
            Err(e) => {
                return Err(TeaSqliteError::wrap(e));
            },
        };
        // First the associations that start or end at the entity.
        match engine::execute_by_id(
            engine::connection_of(&txn),
            statements::DELETE_ASSOCS_OF_ENT,
            id.as_u64(),
        ) {
            Ok(_) => {},
            Err(e) => {
                return Err(TeaSqliteError::wrap(e));
            },
        }
        // Then the entity itself.
        let removed = match engine::entity_rows(
            engine::connection_of(&txn),
            statements::DELETE_ENT,
            id.as_u64(),
        ) {
            Ok(rows) => rows,
            Err(e) => {
                return Err(TeaSqliteError::wrap(e));
            },
        };
        let entities = match rows::typed_entity_rows(removed) {
            Ok(entities) => entities,
            Err(e) => {
                return Err(e);
            },
        };
        let result = rows::single_entity(id, entities);
        match engine::commit(txn) {
            Ok(()) => result,
            Err(e) => Err(TeaSqliteError::wrap(e)),
        }
    }

    fn assoc_add(&mut self, ty: AssocType, id1: EntityId, id2: EntityId, data: &[u8]) -> (r:
        Result<(), TeaError>)
        ensures
            final(self).tunables() == old(self).tunables(),
            r is Ok ==> engine::fits(ty.value()) && engine::fits(id1.value()) && engine::fits(
                id2.value(),
            ),
            r is Err ==> !(r->Err_0 is SharedResourcePoisoned),
    {
        let now = engine::unix_now();
        self.assoc_add_at(ty, id1, id2, data, now)
    }

    fn assoc_delete(&mut self, ty: AssocType, id1: EntityId, id2: EntityId) -> (r: Result<
        AssocStorage,
        TeaError,
    >)
        ensures
            final(self).tunables() == old(self).tunables(),
            r is Err ==> !(r->Err_0 is SharedResourcePoisoned),
    {
        match engine::assoc_rows_by_key(
            &self.conn,
            statements::DELETE_ASSOC,
            ty.as_u64(),
            id1.as_u64(),
            id2.as_u64(),
        ) {
            Ok(rows) => rows::assoc_from_rows(ty, id1, id2, ty, rows),
            Err(e) => Err(TeaSqliteError::wrap(e)),
        }
    }

    fn assoc_change_type(
        &mut self,
        ty: AssocType,
        id1: EntityId,
        id2: EntityId,
        new_ty: AssocType,
    ) -> (r: Result<AssocStorage, TeaError>)
        ensures
            final(self).tunables() == old(self).tunables(),
            r is Err ==> !(r->Err_0 is SharedResourcePoisoned),
    {
        let now = engine::unix_now();
        self.assoc_change_type_at(ty, id1, id2, new_ty, now)
    }

    fn assoc_get(
        &mut self,
        ty: AssocType,
        id1: EntityId,
        id2_set: &[EntityId],
        high: Option<i64>,
        low: Option<i64>,
    ) -> (r: Result<Vec<AssocStorage>, TeaError>)
        ensures
            final(self).tunables() == old(self).tunables(),
            r is Ok ==> engine::fits(ty.value()) && engine::fits(id1.value()) && forall|i: int|
                0 <= i < id2_set.len() ==> engine::fits((#[trigger] id2_set[i]).value()),
            r is Err ==> !(r->Err_0 is SharedResourcePoisoned),
    {
        let high = match high {
            Some(high) => high,
            None => engine::unix_now(),
        };
        let low = match low {
            Some(low) => low,
            None => 0,
        };
        self.assoc_get_between(ty, id1, id2_set, high, low)
    }

    fn assoc_count(&mut self, ty: AssocType, id1: EntityId) -> (r: Result<usize, TeaError>)
        ensures
            final(self).tunables() == old(self).tunables(),
            r is Ok ==> engine::fits(ty.value()) && engine::fits(id1.value()),
            r is Err ==> r->Err_0 is StorageError,
    {
        match engine::count_rows(
            &self.conn,
            statements::COUNT_ASSOCS,
            ty.as_u64(),
            id1.as_u64(),
        ) {
            Ok(nr_assocs) => Ok(nr_assocs),
            Err(e) => Err(TeaSqliteError::wrap(e)),
        }
    }

    fn assoc_range(
        &mut self,
        ty: AssocType,
        id1: EntityId,
        after: AssocRangeAfter,
        limit: AssocRangeLimit,
    ) -> (r: Result<Vec<AssocStorage>, TeaError>)
        ensures
            final(self).tunables() == old(self).tunables(),
            !old(self).tunables().admits(limit) ==> r == Err::<Vec<AssocStorage>, TeaError>(
                TeaError::AssocRangePageTooLarge {
                    requested_limit: old(self).tunables().requested(limit),
                    maximum_limit: old(self).tunables().max_assocs_per_page,
                },
            ),
            old(self).tunables().admits(limit) && r is Err ==> r->Err_0 is ZeroIsNotAValidID
                || r->Err_0 is StorageError,
            r is Ok ==> r->Ok_0.len() <= old(self).tunables().requested(limit),
            limit is Limit && limit->Limit_0 > old(self).tunables().max_assocs_per_page ==> r
                == Err::<Vec<AssocStorage>, TeaError>(
                TeaError::AssocRangePageTooLarge {
                    requested_limit: limit->Limit_0,
                    maximum_limit: old(self).tunables().max_assocs_per_page,
                },
            ),
    {
        let limit = match self.tunables.resolve(limit) {
            Ok(limit) => limit,
            Err(e) => {
                return Err(e);
            },
        };
        let after = after.lower_bound();
        let rows = match engine::edge_rows_after(
            &self.conn,
            statements::SELECT_RANGE,
            ty.as_u64(),
            id1.as_u64(),
            after,
            limit,
        ) {
            Ok(rows) => rows,
            Err(e) => {
                return Err(TeaSqliteError::wrap(e));
            },
        };
        match rows::assocs_from_edge_rows(ty, id1, rows) {
            Ok(page) => rows::range_page(page, after, limit),
            Err(e) => Err(e),
        }
    }

    fn assoc_time_range(
        &mut self,
        ty: AssocType,
        id1: EntityId,
        high: i64,
        low: i64,
        limit: AssocRangeLimit,
    ) -> (r: Result<Vec<AssocStorage>, TeaError>)
        ensures
            final(self).tunables() == old(self).tunables(),
            !old(self).tunables().admits(limit) ==> r == Err::<Vec<AssocStorage>, TeaError>(
                TeaError::AssocRangePageTooLarge {
                    requested_limit: old(self).tunables().requested(limit),
                    maximum_limit: old(self).tunables().max_assocs_per_page,
                },
            ),
            old(self).tunables().admits(limit) && r is Err ==> r->Err_0 is ZeroIsNotAValidID
                || r->Err_0 is StorageError,
            r is Ok ==> r->Ok_0.len() <= old(self).tunables().requested(limit),
            limit is Limit && limit->Limit_0 > old(self).tunables().max_assocs_per_page ==> r
                == Err::<Vec<AssocStorage>, TeaError>(
                TeaError::AssocRangePageTooLarge {
                    requested_limit: limit->Limit_0,
                    maximum_limit: old(self).tunables().max_assocs_per_page,
                },
            ),
    {
        let limit = match self.tunables.resolve(limit) {
            Ok(limit) => limit,
            Err(e) => {
                return Err(e);
            },
        };
        let rows = match engine::edge_rows_between(
            &self.conn,
            statements::SELECT_TIME_RANGE,
            ty.as_u64(),
            id1.as_u64(),
            low,
            high,
            limit,
        ) {
            Ok(rows) => rows,
            Err(e) => {
                return Err(TeaSqliteError::wrap(e));
            },
        };
        match rows::assocs_from_edge_rows(ty, id1, rows) {
            Ok(page) => rows::time_range_page(page, low, high, limit),
            Err(e) => Err(e),
        }
    }
}

} // verus!
