//! From the rows a statement yields to what an operation returns.

use crate::pages::{
    all_above, all_from, all_within, ascends, distinct_ends, ends_among, latest_first,
};
use crate::errors::{TeaError, TeaSqliteError};
use crate::sqlite::statements::SQLITE_CONSTRAINT_PRIMARYKEY;
use crate::types::{AssocStorage, AssocType, EntityId, EntityType};
use std::collections::HashSet;
use vstd::prelude::*;

verus! {

/// What is wrong with a row of an edge query, whose first column is the end
/// point: a zero there is no identifier.
pub open spec fn edge_row_fault(row: (u64, i64, Vec<u8>)) -> Option<TeaError> {
    if row.0 == 0 {
        Some(TeaError::ZeroIsNotAValidID)
    } else {
        None
    }
}

/// Whether `assoc` is the association `(ty, id1, end)` that `row` describes.
pub open spec fn is_edge_row_of(
    assoc: AssocStorage,
    ty: AssocType,
    id1: EntityId,
    row: (u64, i64, Vec<u8>),
) -> bool {
    &&& assoc.ty == ty
    &&& assoc.id1 == id1
    &&& assoc.id2.value() == row.0
    &&& assoc.last_change == row.1
    &&& assoc.data@ == row.2@
}

/// Turns the rows of an edge query on `(ty, id1)` into associations, in the
/// order of the rows.
///
/// A row whose end point is zero fails the whole page; the first such row
/// decides the error.
pub fn assocs_from_edge_rows(ty: AssocType, id1: EntityId, rows: Vec<(u64, i64, Vec<u8>)>) -> (r:
    Result<Vec<AssocStorage>, TeaError>)
    ensures
        r is Ok <==> forall|i: int| 0 <= i < rows.len() ==> edge_row_fault(#[trigger] rows[i]) is None,
        r is Ok ==> r->Ok_0.len() == rows.len() && forall|i: int|
            0 <= i < rows.len() ==> is_edge_row_of(#[trigger] r->Ok_0[i], ty, id1, rows[i]),
        r is Err ==> exists|i: int|
            0 <= i < rows.len() && edge_row_fault(#[trigger] rows[i]) == Some(r->Err_0) && forall|
                j: int,
            |
                0 <= j < i ==> edge_row_fault(#[trigger] rows[j]) is None,
{
    let ghost all = rows@;
    let mut assocs: Vec<AssocStorage> = Vec::new();
    for row in it: rows
        invariant
            it.seq() == all,
            assocs.len() == it.index(),
            forall|j: int| 0 <= j < it.index() ==> edge_row_fault(#[trigger] all[j]) is None,
            forall|j: int|
                0 <= j < it.index() ==> is_edge_row_of(#[trigger] assocs[j], ty, id1, all[j]),
    {
        let (raw_id2, last_change, data) = row;
        let id2 = match EntityId::from_u64(raw_id2) {
            Ok(id2) => id2,
            Err(e) => {
                return Err(e);
            },
        };
        assocs.push(AssocStorage { ty, id1, id2, last_change, data });
    }
    Ok(assocs)
}

/// What is wrong with a row that spells an association out in full: its type
/// and both end points must not be zero. The type is looked at first, then the
/// start, then the end.
pub open spec fn full_row_fault(row: (u64, u64, u64, i64, Vec<u8>)) -> Option<TeaError> {
    if row.0 == 0 {
        Some(TeaError::ZeroIsNotAValidType)
    } else if row.1 == 0 || row.2 == 0 {
        Some(TeaError::ZeroIsNotAValidID)
    } else {
        None
    }
}

/// Whether `assoc` is the association that `row` spells out.
pub open spec fn is_full_row_of(assoc: AssocStorage, row: (u64, u64, u64, i64, Vec<u8>)) -> bool {
    &&& assoc.ty.value() == row.0
    &&& assoc.id1.value() == row.1
    &&& assoc.id2.value() == row.2
    &&& assoc.last_change == row.3
    &&& assoc.data@ == row.4@
}

/// Turns rows of `(type, id1, id2, last_change, data)` into associations, in
/// the order of the rows.
///
/// A row with a zero in its type or in an end point fails the whole result;
/// the first such row decides the error.
pub fn assocs_from_rows(rows: Vec<(u64, u64, u64, i64, Vec<u8>)>) -> (r: Result<
    Vec<AssocStorage>,
    TeaError,
>)
    ensures
        r is Ok <==> forall|i: int| 0 <= i < rows.len() ==> full_row_fault(#[trigger] rows[i]) is None,
        r is Ok ==> r->Ok_0.len() == rows.len() && forall|i: int|
            0 <= i < rows.len() ==> is_full_row_of(#[trigger] r->Ok_0[i], rows[i]),
        r is Err ==> exists|i: int|
            0 <= i < rows.len() && full_row_fault(#[trigger] rows[i]) == Some(r->Err_0) && forall|
                j: int,
            |
                0 <= j < i ==> full_row_fault(#[trigger] rows[j]) is None,
{
    let ghost all = rows@;
    let mut assocs: Vec<AssocStorage> = Vec::new();
    for row in it: rows
        invariant
            it.seq() == all,
            assocs.len() == it.index(),
            forall|j: int| 0 <= j < it.index() ==> full_row_fault(#[trigger] all[j]) is None,
            forall|j: int| 0 <= j < it.index() ==> is_full_row_of(#[trigger] assocs[j], all[j]),
    {
        let (raw_ty, raw_id1, raw_id2, last_change, data) = row;
        let ty = match AssocType::from_u64(raw_ty) {
            Ok(ty) => ty,
            Err(e) => {
                return Err(e);
            },
        };
        let id1 = match EntityId::from_u64(raw_id1) {
            Ok(id1) => id1,
            Err(e) => {
                return Err(e);
            },
        };
        let id2 = match EntityId::from_u64(raw_id2) {
            Ok(id2) => id2,
            Err(e) => {
                return Err(e);
            },
        };
        assocs.push(AssocStorage { ty, id1, id2, last_change, data });
    }
    Ok(assocs)
}

/// What a statement on the one entity `id` comes to, given the rows of
/// `(type, data)` that it yielded.
///
/// No row: there is no such entity. One row: the entity, unless its type is
/// zero. More than one row cannot be, since the identifier is the key, and is
/// reported with the number of rows.
pub fn entity_from_rows(id: EntityId, rows: Vec<(u64, Vec<u8>)>) -> (r: Result<
    (EntityType, Vec<u8>),
    TeaError,
>)
    ensures
        rows.len() == 0 ==> r == Err::<(EntityType, Vec<u8>), TeaError>(TeaError::EntNotFound(id)),
        rows.len() == 1 && rows[0].0 == 0 ==> r == Err::<(EntityType, Vec<u8>), TeaError>(
            TeaError::ZeroIsNotAValidType,
        ),
        rows.len() == 1 && rows[0].0 != 0 ==> {
            &&& r is Ok
            &&& r->Ok_0.0.value() == rows[0].0
            &&& r->Ok_0.1 == rows[0].1
        },
        rows.len() > 1 ==> r == Err::<(EntityType, Vec<u8>), TeaError>(
            TeaError::EntUpdateModifiedTooManyRows { id, modified: rows.len(), expected: 1 },
        ),
{
    let mut rows = rows;
    let nr_rows = rows.len();
    if nr_rows == 0 {
        Err(TeaError::EntNotFound(id))
    } else if nr_rows == 1 {
        match rows.pop() {
            Some((raw_ty, data)) => {
                match EntityType::from_u64(raw_ty) {
                    Ok(ty) => Ok((ty, data)),
                    Err(e) => Err(e),
                }
            },
            None => Err(TeaError::EntNotFound(id)),
        }
    } else {
        Err(TeaError::EntUpdateModifiedTooManyRows { id, modified: nr_rows, expected: 1 })
    }
}

/// Gives each row of `(type, data)` its entity type, in the order of the rows.
///
/// A row whose type is zero fails the whole result.
pub fn typed_entity_rows(rows: Vec<(u64, Vec<u8>)>) -> (r: Result<
    Vec<(EntityType, Vec<u8>)>,
    TeaError,
>)
    ensures
        r is Ok <==> forall|i: int| 0 <= i < rows.len() ==> (#[trigger] rows[i]).0 != 0,
        r is Ok ==> r->Ok_0.len() == rows.len() && forall|i: int|
            0 <= i < rows.len() ==> (#[trigger] r->Ok_0[i]).0.value() == rows[i].0 && r->Ok_0[i].1
                == rows[i].1,
        r is Err ==> r->Err_0 == TeaError::ZeroIsNotAValidType,
{
    let ghost all = rows@;
    let mut typed: Vec<(EntityType, Vec<u8>)> = Vec::new();
    for row in it: rows
        invariant
            it.seq() == all,
            typed.len() == it.index(),
            forall|j: int| 0 <= j < it.index() ==> (#[trigger] all[j]).0 != 0,
            forall|j: int|
                0 <= j < it.index() ==> (#[trigger] typed[j]).0.value() == all[j].0 && typed[j].1
                    == all[j].1,
    {
        let (raw_ty, data) = row;
        let ty = match EntityType::from_u64(raw_ty) {
            Ok(ty) => ty,
            Err(e) => {
                return Err(e);
            },
        };
        typed.push((ty, data));
    }
    Ok(typed)
}

/// What the removal of the one entity `id` comes to, given the entities that
/// the statement took out.
///
/// None: there was no such entity. One: that entity. More than one cannot be
/// and is reported with the number.
pub fn single_entity(id: EntityId, entities: Vec<(EntityType, Vec<u8>)>) -> (r: Result<
    (EntityType, Vec<u8>),
    TeaError,
>)
    ensures
        entities.len() == 0 ==> r == Err::<(EntityType, Vec<u8>), TeaError>(
            TeaError::EntNotFound(id),
        ),
        entities.len() == 1 ==> r == Ok::<(EntityType, Vec<u8>), TeaError>(entities[0]),
        entities.len() > 1 ==> r == Err::<(EntityType, Vec<u8>), TeaError>(
            TeaError::EntUpdateModifiedTooManyRows { id, modified: entities.len(), expected: 1 },
        ),
{
    let mut entities = entities;
    let nr_ents = entities.len();
    if nr_ents == 0 {
        Err(TeaError::EntNotFound(id))
    } else if nr_ents == 1 {
        match entities.pop() {
            Some(entity) => Ok(entity),
            None => Err(TeaError::EntNotFound(id)),
        }
    } else {
        Err(TeaError::EntUpdateModifiedTooManyRows { id, modified: nr_ents, expected: 1 })
    }
}

/// What a statement on the one association `(ty, id1, id2)` comes to, given
/// the rows of `(last_change, data)` that it yielded.
///
/// No row: there is no such association. One row: the association, which is
/// returned under the type `now_ty`; that is `ty` itself unless the statement
/// gave the association a new type. More than one row cannot be, since the
/// triple is the key, and is reported with the number of rows.
pub fn assoc_from_rows(
    ty: AssocType,
    id1: EntityId,
    id2: EntityId,
    now_ty: AssocType,
    rows: Vec<(i64, Vec<u8>)>,
) -> (r: Result<AssocStorage, TeaError>)
    ensures
        rows.len() == 0 ==> r == Err::<AssocStorage, TeaError>(
            TeaError::AssocNotFound { ty, id1, id2 },
        ),
        rows.len() == 1 ==> r == Ok::<AssocStorage, TeaError>(
            AssocStorage { ty: now_ty, id1, id2, last_change: rows[0].0, data: rows[0].1 },
        ),
        rows.len() > 1 ==> r == Err::<AssocStorage, TeaError>(
            TeaError::AssocUpdateModifiedTooManyRows {
                ty,
                id1,
                id2,
                modified: rows.len(),
                expected: 1,
            },
        ),
{
    let mut rows = rows;
    let nr_rows = rows.len();
    if nr_rows == 0 {
        Err(TeaError::AssocNotFound { ty, id1, id2 })
    } else if nr_rows == 1 {
        match rows.pop() {
            Some((last_change, data)) => Ok(
                AssocStorage { ty: now_ty, id1, id2, last_change, data },
            ),
            None => Err(TeaError::AssocNotFound { ty, id1, id2 }),
        }
    } else {
        Err(
            TeaError::AssocUpdateModifiedTooManyRows {
                ty,
                id1,
                id2,
                modified: nr_rows,
                expected: 1,
            },
        )
    }
}

/// What replacing the data of the entity `id` comes to, given what the entity
/// was before and the number of rows that the statement changed.
///
/// No row: the entity is not there. One row: the entity as it was before.
/// More than one cannot be, since the identifier is the key, and is reported
/// with the number of rows.
pub fn replaced_entity(id: EntityId, before: (EntityType, Vec<u8>), changed: usize) -> (r: Result<
    (EntityType, Vec<u8>),
    TeaError,
>)
    ensures
        changed == 0 ==> r == Err::<(EntityType, Vec<u8>), TeaError>(TeaError::EntNotFound(id)),
        changed == 1 ==> r == Ok::<(EntityType, Vec<u8>), TeaError>(before),
        changed > 1 ==> r == Err::<(EntityType, Vec<u8>), TeaError>(
            TeaError::EntUpdateModifiedTooManyRows { id, modified: changed, expected: 1 },
        ),
{
    if changed == 0 {
        Err(TeaError::EntNotFound(id))
    } else if changed == 1 {
        Ok(before)
    } else {
        Err(TeaError::EntUpdateModifiedTooManyRows { id, modified: changed, expected: 1 })
    }
}

/// What adding the association `(ty, id1, id2)` comes to, given how the
/// insert ended: with a number of rows, or with the engine's error and the
/// result code that came with it.
///
/// An insert that went through has added the association. One that SQLite
/// refused because the key is taken says that the association exists; any
/// other failure is the storage's.
pub fn added_assoc(
    ty: AssocType,
    id1: EntityId,
    id2: EntityId,
    inserted: Result<usize, (Option<i32>, rusqlite::Error)>,
) -> (r: Result<(), TeaError>)
    ensures
        inserted is Ok ==> r is Ok,
        inserted is Err && inserted->Err_0.0 == Some(SQLITE_CONSTRAINT_PRIMARYKEY) ==> r
            == Err::<(), TeaError>(TeaError::AssocAlreadyExists { ty, id1, id2 }),
        inserted is Err && inserted->Err_0.0 != Some(SQLITE_CONSTRAINT_PRIMARYKEY) ==> r
            == Err::<(), TeaError>(
            TeaError::StorageError(TeaSqliteError::SqliteStorageError(inserted->Err_0.1)),
        ),
{
    match inserted {
        Ok(_) => Ok(()),
        Err((code, err)) => {
            match code {
                Some(c) => {
                    if c == SQLITE_CONSTRAINT_PRIMARYKEY {
                        Err(TeaError::AssocAlreadyExists { ty, id1, id2 })
                    } else {
                        Err(TeaSqliteError::wrap(err))
                    }
                },
                None => Err(TeaSqliteError::wrap(err)),
            }
        },
    }
}

/// The identifiers of `ids` as plain numbers, in the same order.
pub fn raw_ids(ids: &[EntityId]) -> (raw: Vec<u64>)
    ensures
        raw.len() == ids.len(),
        forall|i: int| 0 <= i < ids.len() ==> #[trigger] raw[i] == ids[i].value(),
{
    let mut raw: Vec<u64> = Vec::new();
    let mut i: usize = 0;
    while i < ids.len()
        invariant
            i <= ids.len(),
            raw.len() == i,
            forall|j: int| 0 <= j < i ==> #[trigger] raw[j] == ids[j].value(),
        decreases ids.len() - i,
    {
        raw.push(ids[i].as_u64());
        i += 1;
    }
    raw
}

/// Holds an association that was given a new type against the time that the
/// change was made at: the change sets the time of the last change to `now`.
///
/// An association that carries that time is handed on as it is. One that
/// does not is an answer that the statement cannot have, and is refused as a
/// failure of the storage.
pub fn retyped_at(assoc: AssocStorage, now: i64) -> (r: Result<AssocStorage, TeaError>)
    ensures
        assoc.last_change == now ==> r == Ok::<AssocStorage, TeaError>(assoc),
        assoc.last_change != now ==> r == Err::<AssocStorage, TeaError>(
            TeaError::StorageError(TeaSqliteError::UnexpectedRows),
        ),
{
    if assoc.last_change == now {
        Ok(assoc)
    } else {
        Err(TeaError::StorageError(TeaSqliteError::UnexpectedRows))
    }
}

/// Whether `page` is what a query for one page can yield: no more than
/// `limit` associations, each with its end point above `after`, by ascending
/// end point.
pub open spec fn fits_range(page: Seq<AssocStorage>, after: u64, limit: usize) -> bool {
    page.len() <= limit && all_above(page, after) && ascends(page)
}

/// Holds a page against what was asked for: no more than `limit`
/// associations, each with its end point above `after`, by ascending end
/// point.
///
/// A page that fits is handed on as it is. One that does not is an answer
/// that the query cannot have, and is refused as a failure of the storage.
pub fn range_page(page: Vec<AssocStorage>, after: u64, limit: usize) -> (r: Result<
    Vec<AssocStorage>,
    TeaError,
>)
    ensures
        fits_range(page@, after, limit) ==> r == Ok::<Vec<AssocStorage>, TeaError>(page),
        !fits_range(page@, after, limit) ==> r == Err::<Vec<AssocStorage>, TeaError>(
            TeaError::StorageError(TeaSqliteError::UnexpectedRows),
        ),
{
    if page.len() > limit {
        return Err(TeaError::StorageError(TeaSqliteError::UnexpectedRows));
    }
    let mut floor = after;
    let mut i: usize = 0;
    while i < page.len()
        invariant
            i <= page.len(),
            i == 0 ==> floor == after,
            i > 0 ==> floor == page[i - 1].id2.value(),
            forall|k: int| 0 <= k < i ==> after < (#[trigger] page[k]).id2.value() <= floor,
            forall|k: int, l: int|
                0 <= k < l < i ==> (#[trigger] page[k]).id2.value() < (#[trigger] page[l]).id2.value(),
        decreases page.len() - i,
    {
        let id2 = page[i].id2.as_u64();
        if id2 <= floor {
            return Err(TeaError::StorageError(TeaSqliteError::UnexpectedRows));
        }
        floor = id2;
        i += 1;
    }
    Ok(page)
}

/// Whether no two associations of `page` end at the same entity.
pub fn has_distinct_ends(page: &Vec<AssocStorage>) -> (distinct: bool)
    ensures
        distinct == distinct_ends(page@),
{
    broadcast use vstd::std_specs::hash::group_hash_axioms;

    let mut seen: HashSet<u64> = HashSet::new();
    let mut i: usize = 0;
    while i < page.len()
        invariant
            i <= page.len(),
            forall|v: u64|
                seen@.contains(v) <==> exists|k: int|
                    0 <= k < i && (#[trigger] page[k]).id2.value() == v,
            forall|k: int, l: int|
                0 <= k < l < i ==> (#[trigger] page[k]).id2 != (#[trigger] page[l]).id2,
        decreases page.len() - i,
    {
        let end = page[i].id2.as_u64();
        if seen.contains(&end) {
            proof {
                let k = choose|k: int| 0 <= k < i && (#[trigger] page[k]).id2.value() == end;
                EntityId::value_is_injective(page[k].id2, page[i as int].id2);
            }
            return false;
        }
        seen.insert(end);
        i += 1;
    }
    true
}

/// Whether `page` is what a query for a window of time can yield: no more
/// than `limit` associations, each changed between `low` and `high`, the
/// latest first, no two to the same end point.
pub open spec fn fits_time_range(page: Seq<AssocStorage>, low: i64, high: i64, limit: usize) -> bool {
    page.len() <= limit && all_within(page, low, high) && latest_first(page) && distinct_ends(page)
}

/// Holds a page against the window of time that was asked for: no more than
/// `limit` associations, each changed between `low` and `high`, both included,
/// the latest first, no two to the same end point.
///
/// A page that fits is handed on as it is. One that does not is an answer
/// that the query cannot have, and is refused as a failure of the storage.
pub fn time_range_page(page: Vec<AssocStorage>, low: i64, high: i64, limit: usize) -> (r: Result<
    Vec<AssocStorage>,
    TeaError,
>)
    ensures
        fits_time_range(page@, low, high, limit) ==> r == Ok::<Vec<AssocStorage>, TeaError>(page),
        !fits_time_range(page@, low, high, limit) ==> r == Err::<Vec<AssocStorage>, TeaError>(
            TeaError::StorageError(TeaSqliteError::UnexpectedRows),
        ),
{
    if page.len() > limit {
        return Err(TeaError::StorageError(TeaSqliteError::UnexpectedRows));
    }
    let mut ceiling = high;
    let mut i: usize = 0;
    while i < page.len()
        invariant
            i <= page.len(),
            i == 0 ==> ceiling == high,
            i > 0 ==> ceiling == page[i - 1].last_change,
            forall|k: int| 0 <= k < i ==> low <= (#[trigger] page[k]).last_change <= high,
            forall|k: int| 0 <= k < i ==> ceiling <= (#[trigger] page[k]).last_change,
            forall|k: int, l: int|
                0 <= k < l < i ==> (#[trigger] page[k]).last_change >= (
                #[trigger] page[l]).last_change,
        decreases page.len() - i,
    {
        let changed = page[i].last_change;
        if changed < low || changed > ceiling {
            return Err(TeaError::StorageError(TeaSqliteError::UnexpectedRows));
        }
        ceiling = changed;
        i += 1;
    }
    if has_distinct_ends(&page) {
        Ok(page)
    } else {
        Err(TeaError::StorageError(TeaSqliteError::UnexpectedRows))
    }
}

/// The numbers of `ids`, to look an identifier up in.
pub fn numbers_of(ids: &[EntityId]) -> (numbers: HashSet<u64>)
    ensures
        forall|id: EntityId| numbers@.contains(id.value()) <==> ids@.contains(id),
{
    broadcast use vstd::std_specs::hash::group_hash_axioms;

    let mut numbers: HashSet<u64> = HashSet::new();
    let mut i: usize = 0;
    while i < ids.len()
        invariant
            i <= ids.len(),
            forall|v: u64|
                numbers@.contains(v) <==> exists|k: int| 0 <= k < i && (#[trigger] ids[k]).value() == v,
        decreases ids.len() - i,
    {
        numbers.insert(ids[i].as_u64());
        i += 1;
    }
    assert forall|id: EntityId| numbers@.contains(id.value()) <==> ids@.contains(id) by {
        if numbers@.contains(id.value()) {
            let k = choose|k: int| 0 <= k < ids.len() && (#[trigger] ids[k]).value() == id.value();
            EntityId::value_is_injective(ids[k], id);
        }
    }
    numbers
}

/// Whether `found` is what a query by end point can yield: associations of
/// type `ty` from `id1` to one of `ends`, each changed between `low` and
/// `high`, no two to the same end point.
pub open spec fn fits_ends(
    found: Seq<AssocStorage>,
    ty: AssocType,
    id1: EntityId,
    ends: Seq<EntityId>,
    low: i64,
    high: i64,
) -> bool {
    all_from(found, ty, id1) && ends_among(found, ends) && all_within(found, low, high)
        && distinct_ends(found)
}

/// Holds what a query by end point found against what was asked for:
/// associations of type `ty` from `id1` to one of `ends`, each changed
/// between `low` and `high`, both included, no two to the same end point.
///
/// What fits is handed on as it is. What does not is an answer that the
/// query cannot have, and is refused as a failure of the storage.
pub fn found_by_ends(
    found: Vec<AssocStorage>,
    ty: AssocType,
    id1: EntityId,
    ends: &[EntityId],
    low: i64,
    high: i64,
) -> (r: Result<Vec<AssocStorage>, TeaError>)
    ensures
        fits_ends(found@, ty, id1, ends@, low, high) ==> r == Ok::<Vec<AssocStorage>, TeaError>(
            found,
        ),
        !fits_ends(found@, ty, id1, ends@, low, high) ==> r == Err::<Vec<AssocStorage>, TeaError>(
            TeaError::StorageError(TeaSqliteError::UnexpectedRows),
        ),
{
    broadcast use vstd::std_specs::hash::group_hash_axioms;

    let asked = numbers_of(ends);
    let mut i: usize = 0;
    while i < found.len()
        invariant
            i <= found.len(),
            forall|id: EntityId| asked@.contains(id.value()) <==> ends@.contains(id),
            forall|k: int| 0 <= k < i ==> (#[trigger] found[k]).ty == ty && found[k].id1 == id1,
            forall|k: int| 0 <= k < i ==> ends@.contains((#[trigger] found[k]).id2),
            forall|k: int| 0 <= k < i ==> low <= (#[trigger] found[k]).last_change <= high,
        decreases found.len() - i,
    {
        let assoc = &found[i];
        let end = assoc.id2.as_u64();
        let fits = assoc.ty == ty && assoc.id1 == id1 && asked.contains(&end) && low
            <= assoc.last_change && assoc.last_change <= high;
        if !fits {
            assert(!(found[i as int].ty == ty && found[i as int].id1 == id1 && ends@.contains(
                found[i as int].id2,
            ) && low <= found[i as int].last_change <= high));
            return Err(TeaError::StorageError(TeaSqliteError::UnexpectedRows));
        }
        i += 1;
    }
    if has_distinct_ends(&found) {
        Ok(found)
    } else {
        Err(TeaError::StorageError(TeaSqliteError::UnexpectedRows))
    }
}

} // verus!
