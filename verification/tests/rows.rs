use tea::sqlite::rows::{
    added_assoc, assoc_from_rows, assocs_from_edge_rows, assocs_from_rows, entity_from_rows,
    found_by_ends, has_distinct_ends, numbers_of, range_page, raw_ids, replaced_entity, retyped_at, single_entity,
    time_range_page, typed_entity_rows,
};
use tea::sqlite::statements::{select_by_ends, SQLITE_CONSTRAINT_PRIMARYKEY};
use tea::{AssocStorage, AssocType, EntityId, EntityType, TeaError, TeaSqliteError};

fn id(raw: u64) -> EntityId {
    EntityId::from_u64(raw).unwrap()
}

fn ety(raw: u64) -> EntityType {
    EntityType::from_u64(raw).unwrap()
}

fn aty(raw: u64) -> AssocType {
    AssocType::from_u64(raw).unwrap()
}

#[test]
fn one_entity_row_is_the_entity() {
    assert_eq!(
        entity_from_rows(id(5), vec![(3, vec![1, 2, 0, 255])]),
        Ok((ety(3), vec![1, 2, 0, 255]))
    );
    assert_eq!(entity_from_rows(id(5), vec![(3, vec![])]), Ok((ety(3), vec![])));
}

#[test]
fn no_entity_row_is_not_found() {
    assert_eq!(
        entity_from_rows(id(5), vec![]),
        Err(TeaError::EntNotFound(id(5)))
    );
}

#[test]
fn two_entity_rows_are_too_many() {
    assert_eq!(
        entity_from_rows(id(5), vec![(3, vec![]), (0, vec![])]),
        Err(TeaError::EntUpdateModifiedTooManyRows {
            id: id(5),
            modified: 2,
            expected: 1
        })
    );
}

#[test]
fn an_entity_row_of_type_zero_is_refused() {
    assert_eq!(
        entity_from_rows(id(5), vec![(0, vec![9])]),
        Err(TeaError::ZeroIsNotAValidType)
    );
}

#[test]
fn removed_rows_get_their_types_before_they_are_counted() {
    assert_eq!(
        typed_entity_rows(vec![(1, vec![7]), (2, vec![])]),
        Ok(vec![(ety(1), vec![7]), (ety(2), vec![])])
    );
    assert_eq!(typed_entity_rows(vec![]), Ok(vec![]));
    assert_eq!(
        typed_entity_rows(vec![(1, vec![7]), (0, vec![])]),
        Err(TeaError::ZeroIsNotAValidType)
    );
}

#[test]
fn one_removed_entity_is_returned() {
    assert_eq!(
        single_entity(id(9), vec![(ety(1), vec![7, 8])]),
        Ok((ety(1), vec![7, 8]))
    );
    assert_eq!(single_entity(id(9), vec![]), Err(TeaError::EntNotFound(id(9))));
    assert_eq!(
        single_entity(id(9), vec![(ety(1), vec![]), (ety(1), vec![]), (ety(2), vec![])]),
        Err(TeaError::EntUpdateModifiedTooManyRows {
            id: id(9),
            modified: 3,
            expected: 1
        })
    );
}

#[test]
fn a_replacement_is_judged_by_the_rows_it_changed() {
    let before = (ety(4), vec![1u8, 2, 3]);
    assert_eq!(replaced_entity(id(2), before.clone(), 1), Ok(before.clone()));
    assert_eq!(
        replaced_entity(id(2), before.clone(), 0),
        Err(TeaError::EntNotFound(id(2)))
    );
    assert_eq!(
        replaced_entity(id(2), before, 2),
        Err(TeaError::EntUpdateModifiedTooManyRows {
            id: id(2),
            modified: 2,
            expected: 1
        })
    );
}

#[test]
fn one_assoc_row_is_the_assoc() {
    assert_eq!(
        assoc_from_rows(aty(1), id(2), id(3), aty(1), vec![(1700000000, vec![5])]),
        Ok(AssocStorage {
            ty: aty(1),
            id1: id(2),
            id2: id(3),
            last_change: 1700000000,
            data: vec![5]
        })
    );
    // Under a new type, the record carries the new type.
    assert_eq!(
        assoc_from_rows(aty(1), id(2), id(3), aty(8), vec![(-1, vec![])]),
        Ok(AssocStorage {
            ty: aty(8),
            id1: id(2),
            id2: id(3),
            last_change: -1,
            data: vec![]
        })
    );
}

#[test]
fn no_assoc_row_is_not_found_under_the_old_type() {
    assert_eq!(
        assoc_from_rows(aty(1), id(2), id(3), aty(8), vec![]),
        Err(TeaError::AssocNotFound {
            ty: aty(1),
            id1: id(2),
            id2: id(3)
        })
    );
}

#[test]
fn two_assoc_rows_are_too_many() {
    assert_eq!(
        assoc_from_rows(aty(1), id(2), id(3), aty(8), vec![(1, vec![]), (2, vec![])]),
        Err(TeaError::AssocUpdateModifiedTooManyRows {
            ty: aty(1),
            id1: id(2),
            id2: id(3),
            modified: 2,
            expected: 1
        })
    );
}

#[test]
fn full_rows_become_assocs_in_order() {
    let rows = vec![
        (1u64, 2u64, 3u64, 10i64, vec![1u8]),
        (1, 2, 4, 11, vec![]),
        (9, 8, 7, 0, vec![0, 0]),
    ];
    let assocs = assocs_from_rows(rows).unwrap();
    assert_eq!(
        assocs,
        vec![
            AssocStorage {
                ty: aty(1),
                id1: id(2),
                id2: id(3),
                last_change: 10,
                data: vec![1]
            },
            AssocStorage {
                ty: aty(1),
                id1: id(2),
                id2: id(4),
                last_change: 11,
                data: vec![]
            },
            AssocStorage {
                ty: aty(9),
                id1: id(8),
                id2: id(7),
                last_change: 0,
                data: vec![0, 0]
            },
        ]
    );
    assert_eq!(assocs_from_rows(vec![]), Ok(vec![]));
}

#[test]
fn the_first_bad_full_row_decides_the_error() {
    // A zero type comes before a zero identifier of the same row.
    assert_eq!(
        assocs_from_rows(vec![(1, 2, 3, 0, vec![]), (0, 0, 3, 0, vec![])]),
        Err(TeaError::ZeroIsNotAValidType)
    );
    assert_eq!(
        assocs_from_rows(vec![(1, 0, 3, 0, vec![]), (0, 2, 3, 0, vec![])]),
        Err(TeaError::ZeroIsNotAValidID)
    );
    assert_eq!(
        assocs_from_rows(vec![(1, 2, 0, 0, vec![])]),
        Err(TeaError::ZeroIsNotAValidID)
    );
}

#[test]
fn edge_rows_become_assocs_of_the_query() {
    let assocs =
        assocs_from_edge_rows(aty(6), id(1), vec![(2, 100, vec![1, 2]), (5, 90, vec![])]).unwrap();
    assert_eq!(
        assocs,
        vec![
            AssocStorage {
                ty: aty(6),
                id1: id(1),
                id2: id(2),
                last_change: 100,
                data: vec![1, 2]
            },
            AssocStorage {
                ty: aty(6),
                id1: id(1),
                id2: id(5),
                last_change: 90,
                data: vec![]
            },
        ]
    );
    assert_eq!(assocs_from_edge_rows(aty(6), id(1), vec![]), Ok(vec![]));
    assert_eq!(
        assocs_from_edge_rows(aty(6), id(1), vec![(2, 100, vec![]), (0, 90, vec![])]),
        Err(TeaError::ZeroIsNotAValidID)
    );
}

#[test]
fn identifiers_become_plain_numbers() {
    assert_eq!(raw_ids(&[id(3), id(1), id(3)]), vec![3, 1, 3]);
    assert_eq!(raw_ids(&[]), Vec::<u64>::new());
}

#[test]
fn the_statement_has_one_placeholder_for_each_end() {
    let head = "
    SELECT type, id1, id2, last_change_unixtime, data
    FROM assocs
    WHERE type = ?1
      AND id1 = ?2
      AND last_change_unixtime <= ?3
      AND last_change_unixtime >= ?4
      AND id2 in (";
    assert_eq!(select_by_ends(0), format!("{})\n", head));
    assert_eq!(select_by_ends(1), format!("{}?)\n", head));
    assert_eq!(select_by_ends(2), format!("{}?,?)\n", head));
    assert_eq!(select_by_ends(5), format!("{}?,?,?,?,?)\n", head));
}

#[test]
fn an_insert_that_went_through_adds_the_assoc() {
    assert_eq!(added_assoc(aty(1), id(2), id(3), Ok(1)), Ok(()));
}

#[test]
fn a_taken_key_says_that_the_assoc_exists() {
    let taken = rusqlite::Error::SqliteFailure(
        rusqlite::ffi::Error::new(SQLITE_CONSTRAINT_PRIMARYKEY),
        None,
    );
    assert_eq!(
        added_assoc(
            aty(1),
            id(2),
            id(3),
            Err((Some(SQLITE_CONSTRAINT_PRIMARYKEY), taken))
        ),
        Err(TeaError::AssocAlreadyExists {
            ty: aty(1),
            id1: id(2),
            id2: id(3)
        })
    );
}

#[test]
fn any_other_failure_of_an_insert_is_the_storage_s() {
    assert_eq!(
        added_assoc(
            aty(1),
            id(2),
            id(3),
            Err((None, rusqlite::Error::InvalidQuery))
        ),
        Err(TeaError::StorageError(TeaSqliteError::SqliteStorageError(
            rusqlite::Error::InvalidQuery
        )))
    );
    // A constraint that is not the key's is no collision.
    let not_null = rusqlite::Error::SqliteFailure(rusqlite::ffi::Error::new(1299), None);
    match added_assoc(aty(1), id(2), id(3), Err((Some(1299), not_null))) {
        Err(TeaError::StorageError(_)) => {}
        other => panic!("expected a storage error, got {:?}", other),
    }
}

#[test]
fn wrapping_keeps_the_engine_s_error() {
    assert_eq!(
        TeaSqliteError::wrap(rusqlite::Error::QueryReturnedNoRows),
        TeaError::StorageError(TeaSqliteError::SqliteStorageError(
            rusqlite::Error::QueryReturnedNoRows
        ))
    );
    let words = TeaSqliteError::wrap(rusqlite::Error::QueryReturnedNoRows).to_string();
    assert!(words.starts_with("storage layer error: rusqlite error: "));
    assert!(words.len() > "storage layer error: rusqlite error: ".len());
}

fn assoc(ty: u64, id1: u64, id2: u64, last_change: i64) -> AssocStorage {
    AssocStorage {
        ty: aty(ty),
        id1: id(id1),
        id2: id(id2),
        last_change,
        data: vec![id2 as u8],
    }
}

fn unexpected<T>() -> Result<T, TeaError> {
    Err(TeaError::StorageError(TeaSqliteError::UnexpectedRows))
}

#[test]
fn a_page_that_fits_is_handed_on() {
    let page = vec![assoc(1, 1, 2, 0), assoc(1, 1, 5, 0), assoc(1, 1, 6, 0)];
    assert_eq!(range_page(page.clone(), 0, 3), Ok(page.clone()));
    assert_eq!(range_page(page.clone(), 1, 500), Ok(page.clone()));
    assert_eq!(range_page(vec![], 7, 0), Ok(vec![]));
    assert_eq!(range_page(vec![], u64::MAX, 3), Ok(vec![]));
    let top = vec![assoc(1, 1, u64::MAX, 0)];
    assert_eq!(range_page(top.clone(), u64::MAX - 1, 1), Ok(top));
}

#[test]
fn a_page_that_is_too_long_is_refused() {
    let page = vec![assoc(1, 1, 2, 0), assoc(1, 1, 5, 0), assoc(1, 1, 6, 0)];
    assert_eq!(range_page(page.clone(), 0, 2), unexpected());
    assert_eq!(range_page(page, 0, 0), unexpected());
}

#[test]
fn a_page_that_reaches_down_to_its_cursor_is_refused() {
    let page = vec![assoc(1, 1, 2, 0), assoc(1, 1, 5, 0)];
    assert_eq!(range_page(page.clone(), 2, 10), unexpected());
    assert_eq!(range_page(page, 3, 10), unexpected());
}

#[test]
fn a_page_out_of_order_is_refused() {
    assert_eq!(
        range_page(vec![assoc(1, 1, 5, 0), assoc(1, 1, 2, 0)], 0, 10),
        unexpected()
    );
    // The same end point twice is out of order too.
    assert_eq!(
        range_page(vec![assoc(1, 1, 2, 0), assoc(1, 1, 5, 0), assoc(1, 1, 5, 1)], 0, 10),
        unexpected()
    );
}

#[test]
fn a_window_that_fits_is_handed_on() {
    let page = vec![assoc(1, 1, 9, 30), assoc(1, 1, 2, 20), assoc(1, 1, 5, 20), assoc(1, 1, 1, 10)];
    assert_eq!(time_range_page(page.clone(), 10, 30, 4), Ok(page.clone()));
    assert_eq!(time_range_page(page.clone(), i64::MIN, i64::MAX, 100), Ok(page));
    assert_eq!(time_range_page(vec![], 30, 10, 0), Ok(vec![]));
}

#[test]
fn a_window_that_does_not_fit_is_refused() {
    let page = vec![assoc(1, 1, 9, 30), assoc(1, 1, 2, 20), assoc(1, 1, 1, 10)];
    // Too long.
    assert_eq!(time_range_page(page.clone(), 10, 30, 2), unexpected());
    // Above and below the window.
    assert_eq!(time_range_page(page.clone(), 10, 29, 3), unexpected());
    assert_eq!(time_range_page(page, 11, 30, 3), unexpected());
    // The earlier change first.
    assert_eq!(
        time_range_page(vec![assoc(1, 1, 2, 20), assoc(1, 1, 9, 30)], 0, 100, 3),
        unexpected()
    );
}

#[test]
fn the_numbers_of_identifiers_are_those_of_each() {
    let numbers = numbers_of(&[id(1), id(3), id(1)]);
    assert_eq!(numbers.len(), 2);
    assert!(numbers.contains(&1));
    assert!(numbers.contains(&3));
    assert!(!numbers.contains(&2));
    assert!(numbers_of(&[]).is_empty());
}

#[test]
fn what_was_asked_for_is_handed_on() {
    let found = vec![assoc(1, 1, 5, 20), assoc(1, 1, 2, 30)];
    assert_eq!(
        found_by_ends(found.clone(), aty(1), id(1), &[id(2), id(5), id(7)], 20, 30),
        Ok(found)
    );
    assert_eq!(found_by_ends(vec![], aty(1), id(1), &[], 30, 20), Ok(vec![]));
}

#[test]
fn what_was_not_asked_for_is_refused() {
    let found = vec![assoc(1, 1, 5, 20), assoc(1, 1, 2, 30)];
    let ends = [id(2), id(5)];
    // Another type, another start.
    assert_eq!(
        found_by_ends(found.clone(), aty(2), id(1), &ends, 20, 30),
        unexpected()
    );
    assert_eq!(
        found_by_ends(found.clone(), aty(1), id(3), &ends, 20, 30),
        unexpected()
    );
    // An end that was not asked for.
    assert_eq!(
        found_by_ends(found.clone(), aty(1), id(1), &[id(5)], 20, 30),
        unexpected()
    );
    // Outside the window.
    assert_eq!(
        found_by_ends(found.clone(), aty(1), id(1), &ends, 21, 30),
        unexpected()
    );
    assert_eq!(found_by_ends(found, aty(1), id(1), &ends, 20, 29), unexpected());
}

#[test]
fn rows_that_do_not_fit_say_so() {
    assert_eq!(
        TeaError::StorageError(TeaSqliteError::UnexpectedRows).to_string(),
        "storage layer error: the rows do not fit the query"
    );
}

#[test]
fn a_retyped_assoc_carries_the_time_of_the_change() {
    assert_eq!(retyped_at(assoc(2, 1, 5, 77), 77), Ok(assoc(2, 1, 5, 77)));
    assert_eq!(retyped_at(assoc(2, 1, 5, 76), 77), unexpected());
    assert_eq!(retyped_at(assoc(2, 1, 5, -1), i64::MIN), unexpected());
}

#[test]
fn ends_are_distinct_when_none_comes_twice() {
    assert!(has_distinct_ends(&vec![]));
    assert!(has_distinct_ends(&vec![assoc(1, 1, 5, 0)]));
    assert!(has_distinct_ends(&vec![
        assoc(1, 1, 5, 0),
        assoc(1, 1, 2, 0),
        assoc(1, 1, 9, 0)
    ]));
    assert!(!has_distinct_ends(&vec![
        assoc(1, 1, 5, 0),
        assoc(1, 1, 2, 0),
        assoc(1, 1, 5, 7)
    ]));
    assert!(!has_distinct_ends(&vec![assoc(1, 1, 5, 0), assoc(1, 1, 5, 0)]));
}

#[test]
fn the_same_end_twice_is_refused() {
    let twice = vec![assoc(1, 1, 5, 30), assoc(1, 1, 2, 20), assoc(1, 1, 5, 10)];
    assert_eq!(time_range_page(twice.clone(), 0, 100, 10), unexpected());
    assert_eq!(
        found_by_ends(twice, aty(1), id(1), &[id(2), id(5)], 0, 100),
        unexpected()
    );
}
