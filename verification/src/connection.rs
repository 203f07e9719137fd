//! What every store of entities and associations offers.

use crate::errors::TeaError;
use crate::pages::{
    all_from, all_within, distinct_ends, ends_among, is_range_page, keeps_to, latest_first,
};
use crate::types::{
    AssocRangeAfter, AssocRangeLimit, AssocStorage, AssocType, EntityId, EntityType,
};
use vstd::prelude::*;

verus! {

/// Whether `e` is a failure of the layer underneath rather than an answer of
/// the store: the storage failed, or a shared store was left poisoned.
pub open spec fn is_outage(e: TeaError) -> bool {
    e is StorageError || e is SharedResourcePoisoned
}

/// Whether `e` says that a statement on the entity `id`, meant for one row,
/// touched `modified` rows, more than one.
pub open spec fn is_entity_overrun(e: TeaError, id: EntityId) -> bool {
    e matches TeaError::EntUpdateModifiedTooManyRows { id: at, modified, expected } && at == id
        && expected == 1 && modified > 1
}

/// Whether `e` says that a statement on the association `(ty, id1, id2)`,
/// meant for one row, touched more than one.
pub open spec fn is_assoc_overrun(e: TeaError, ty: AssocType, id1: EntityId, id2: EntityId) -> bool {
    e matches TeaError::AssocUpdateModifiedTooManyRows {
        ty: t,
        id1: a,
        id2: b,
        modified,
        expected,
    } && t == ty && a == id1 && b == id2 && expected == 1 && modified > 1
}

/// Whether `e` is an error that reading, replacing or removing the entity
/// `id` may end in.
pub open spec fn is_entity_failure(e: TeaError, id: EntityId) -> bool {
    ||| e == TeaError::EntNotFound(id)
    ||| is_entity_overrun(e, id)
    ||| e is ZeroIsNotAValidType
    ||| is_outage(e)
}

/// Whether `e` is an error that removing or retyping the association
/// `(ty, id1, id2)` may end in.
pub open spec fn is_assoc_failure(e: TeaError, ty: AssocType, id1: EntityId, id2: EntityId) -> bool {
    ||| e == (TeaError::AssocNotFound { ty, id1, id2 })
    ||| is_assoc_overrun(e, ty, id1, id2)
    ||| is_outage(e)
}

/// Whether `e` refuses a page of `limit` for being too large. The maximum
/// page is never refused, and a page of a given number is refused under that
/// number.
pub open spec fn is_page_refusal(e: TeaError, limit: AssocRangeLimit) -> bool {
    e matches TeaError::AssocRangePageTooLarge { requested_limit, maximum_limit }
        && requested_limit > maximum_limit && !(limit is Maximum) && (limit matches AssocRangeLimit::Limit(
        n,
    ) ==> requested_limit == n)
}

/// Whether `e` is an error that a paged query for `limit` may end in.
pub open spec fn is_page_failure(e: TeaError, limit: AssocRangeLimit) -> bool {
    ||| is_page_refusal(e, limit)
    ||| e is ZeroIsNotAValidID
    ||| is_outage(e)
}

/// A store of entities and associations.
///
/// Entities are created, read, replaced and removed by identifier.
/// Associations are created, removed and retyped by their key `(ty, id1,
/// id2)`, and found by one of three queries: `assoc_get` for a set of end
/// points, `assoc_range` page by page, `assoc_time_range` for a window of
/// time.
///
/// The clauses below are what a caller may rely on whichever store answers:
/// which errors an operation can end in, and how what it returns hangs
/// together with what was asked.
pub trait TeaConnection {
    /// Creates the tables of the store where they are missing. Calling it on
    /// a store that has them changes nothing.
    fn initialize(&mut self) -> (r: Result<(), TeaError>)
        ensures
            r is Err ==> is_outage(r->Err_0),
    ;

    /// Adds an entity of type `ty` with `data`; the store picks its
    /// identifier, which is never zero.
    fn ent_add(&mut self, ty: EntityType, data: &[u8]) -> (r: Result<EntityId, TeaError>)
        ensures
            r is Ok ==> r->Ok_0.value() != 0,
            r is Err ==> r->Err_0 is ZeroIsNotAValidID || is_outage(r->Err_0),
    ;

    /// The type and the data of the entity `id`.
    fn ent_get(&mut self, id: EntityId) -> (r: Result<(EntityType, Vec<u8>), TeaError>)
        ensures
            r is Err ==> is_entity_failure(r->Err_0, id),
    ;

    /// Replaces the data of the entity `id` and returns its type and the data
    /// it had before. The type of an entity never changes: `ty` is taken and
    /// not used.
    fn ent_update(&mut self, id: EntityId, ty: EntityType, data: &[u8]) -> (r: Result<
        (EntityType, Vec<u8>),
        TeaError,
    >)
        ensures
            r is Err ==> is_entity_failure(r->Err_0, id),
    ;

    /// Removes the entity `id`, and with it every association that starts or
    /// ends there; returns the type and data it had.
    fn ent_delete(&mut self, id: EntityId) -> (r: Result<(EntityType, Vec<u8>), TeaError>)
        ensures
            r is Err ==> is_entity_failure(r->Err_0, id),
    ;

    /// Adds the association `(ty, id1, id2)` with `data`, changed now. An
    /// association that is there already is not overwritten.
    fn assoc_add(&mut self, ty: AssocType, id1: EntityId, id2: EntityId, data: &[u8]) -> (r:
        Result<(), TeaError>)
        ensures
            r is Err ==> r->Err_0 == (TeaError::AssocAlreadyExists { ty, id1, id2 }) || is_outage(
                r->Err_0,
            ),
    ;

    /// Removes the association `(ty, id1, id2)` and returns it.
    fn assoc_delete(&mut self, ty: AssocType, id1: EntityId, id2: EntityId) -> (r: Result<
        AssocStorage,
        TeaError,
    >)
        ensures
            r is Ok ==> r->Ok_0.ty == ty && r->Ok_0.id1 == id1 && r->Ok_0.id2 == id2,
            r is Err ==> is_assoc_failure(r->Err_0, ty, id1, id2),
    ;

    /// Gives the association `(ty, id1, id2)` the type `new_ty`, changed now,
    /// and returns it as it then is.
    fn assoc_change_type(
        &mut self,
        ty: AssocType,
        id1: EntityId,
        id2: EntityId,
        new_ty: AssocType,
    ) -> (r: Result<AssocStorage, TeaError>)
        ensures
            r is Ok ==> r->Ok_0.ty == new_ty && r->Ok_0.id1 == id1 && r->Ok_0.id2 == id2,
            r is Err ==> is_assoc_failure(r->Err_0, ty, id1, id2),
    ;

    /// The associations of type `ty` from `id1` to an entity of `id2_set`
    /// that were last changed between `low` and `high`, both included and in
    /// seconds since the Unix epoch. Without `high` the window ends now;
    /// without `low` it begins at the epoch. Finding none is no error.
    ///
    /// It is for the caller to keep `id2_set` as small as the storage can
    /// take; a set that is too large is a failure of the storage.
    fn assoc_get(
        &mut self,
        ty: AssocType,
        id1: EntityId,
        id2_set: &[EntityId],
        high: Option<i64>,
        low: Option<i64>,
    ) -> (r: Result<Vec<AssocStorage>, TeaError>)
        ensures
            r is Ok ==> all_from(r->Ok_0@, ty, id1) && ends_among(r->Ok_0@, id2_set@)
                && distinct_ends(r->Ok_0@),
            r is Ok && high is Some ==> all_within(r->Ok_0@, i64::MIN, high->Some_0),
            r is Ok && low is Some ==> all_within(r->Ok_0@, low->Some_0, i64::MAX),
            r is Ok && low is None ==> all_within(r->Ok_0@, 0, i64::MAX),
            r is Err ==> r->Err_0 is ZeroIsNotAValidID || r->Err_0 is ZeroIsNotAValidType
                || is_outage(r->Err_0),
    ;

    /// The number of associations of type `ty` that start at `id1`.
    fn assoc_count(&mut self, ty: AssocType, id1: EntityId) -> (r: Result<usize, TeaError>)
        ensures
            r is Err ==> is_outage(r->Err_0),
    ;

    /// One page of the associations of type `ty` that start at `id1`, by
    /// ascending end point, beginning above `after`.
    fn assoc_range(
        &mut self,
        ty: AssocType,
        id1: EntityId,
        after: AssocRangeAfter,
        limit: AssocRangeLimit,
    ) -> (r: Result<Vec<AssocStorage>, TeaError>)
        ensures
            r is Ok ==> is_range_page(r->Ok_0@, ty, id1, after) && keeps_to(r->Ok_0@, limit),
            r is Err ==> is_page_failure(r->Err_0, limit),
    ;

    /// The associations of type `ty` that start at `id1` and were last
    /// changed between `low` and `high`, both included, latest first, no more
    /// than `limit` allows. `high` comes before `low`.
    fn assoc_time_range(
        &mut self,
        ty: AssocType,
        id1: EntityId,
        high: i64,
        low: i64,
        limit: AssocRangeLimit,
    ) -> (r: Result<Vec<AssocStorage>, TeaError>)
        ensures
            r is Ok ==> all_from(r->Ok_0@, ty, id1) && all_within(r->Ok_0@, low, high)
                && latest_first(r->Ok_0@) && distinct_ends(r->Ok_0@) && keeps_to(r->Ok_0@, limit),
            r is Err ==> is_page_failure(r->Err_0, limit),
    ;
}

} // verus!
