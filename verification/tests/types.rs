use tea::tunables::{
    default_assocs_per_page, max_assocs_per_page, Tunables, DEFAULT_ASSOCS_PER_PAGE,
    MAX_ASSOCS_PER_PAGE,
};
use tea::{AssocRangeAfter, AssocRangeLimit, AssocType, EntityId, EntityType, TeaError};

#[test]
fn zero_is_no_identifier_and_no_type() {
    assert_eq!(EntityId::from_u64(0), Err(TeaError::ZeroIsNotAValidID));
    assert_eq!(EntityType::from_u64(0), Err(TeaError::ZeroIsNotAValidType));
    assert_eq!(AssocType::from_u64(0), Err(TeaError::ZeroIsNotAValidType));
}

#[test]
fn numbers_go_in_and_come_out() {
    for raw in [1u64, 2, 42, 1 << 32, u64::MAX] {
        assert_eq!(EntityId::from_u64(raw).unwrap().as_u64(), raw);
        assert_eq!(EntityType::from_u64(raw).unwrap().as_u64(), raw);
        assert_eq!(AssocType::from_u64(raw).unwrap().as_u64(), raw);
        assert_eq!(EntityId::from_nonzero_u64(raw).as_u64(), raw);
        assert_eq!(EntityType::from_nonzero_u64(raw).as_u64(), raw);
        assert_eq!(AssocType::from_nonzero_u64(raw).as_u64(), raw);
    }
}

#[test]
fn identifiers_compare_by_their_number() {
    let one = EntityId::from_u64(1).unwrap();
    let two = EntityId::from_u64(2).unwrap();
    assert!(one < two);
    assert_eq!(one, EntityId::from_nonzero_u64(1));
    assert_ne!(one, two);
}

#[test]
fn identifiers_show_their_kind() {
    assert_eq!(EntityId::from_u64(42).unwrap().to_string(), "Ent(42)");
    assert_eq!(EntityType::from_u64(3).unwrap().to_string(), "EntType(3)");
    assert_eq!(AssocType::from_u64(7).unwrap().to_string(), "AssocType(7)");
    assert_eq!(
        EntityId::from_u64(u64::MAX).unwrap().to_string(),
        "Ent(18446744073709551615)"
    );
    assert_eq!(EntityId::from_u64(10).unwrap().to_string(), "Ent(10)");
    assert_eq!(EntityId::from_u64(9).unwrap().to_string(), "Ent(9)");
    assert_eq!(EntityId::from_u64(1005).unwrap().to_string(), "Ent(1005)");
}

#[test]
fn decimal_text_of_numbers() {
    assert_eq!(tea::text::decimal_string(0), "0");
    assert_eq!(tea::text::decimal_string(7), "7");
    assert_eq!(tea::text::decimal_string(120), "120");
    assert_eq!(tea::text::labelled("<", 501, ">"), "<501>");
    for n in [0u64, 5, 10, 99, 100, 12345678901234567890] {
        assert_eq!(tea::text::decimal_string(n), format!("{}", n));
    }
}

#[test]
fn the_cursor_gives_the_number_to_begin_above() {
    assert_eq!(AssocRangeAfter::First.lower_bound(), 0);
    let id = EntityId::from_u64(17).unwrap();
    assert_eq!(AssocRangeAfter::ID(id).lower_bound(), 17);
}

#[test]
fn page_sizes_start_at_their_defaults() {
    assert_eq!(MAX_ASSOCS_PER_PAGE, 500);
    assert_eq!(DEFAULT_ASSOCS_PER_PAGE, 100);
    let t = Tunables::new();
    assert_eq!(t.max_assocs_per_page, 500);
    assert_eq!(t.default_assocs_per_page, 100);
    assert_eq!(Tunables::default(), t);
}

#[test]
fn limits_resolve_against_the_page_sizes() {
    let t = Tunables::new();
    assert_eq!(t.resolve(AssocRangeLimit::Default), Ok(100));
    assert_eq!(t.resolve(AssocRangeLimit::Maximum), Ok(500));
    assert_eq!(t.resolve(AssocRangeLimit::Limit(0)), Ok(0));
    assert_eq!(t.resolve(AssocRangeLimit::Limit(1)), Ok(1));
    assert_eq!(t.resolve(AssocRangeLimit::Limit(500)), Ok(500));
    assert_eq!(
        t.resolve(AssocRangeLimit::Limit(501)),
        Err(TeaError::AssocRangePageTooLarge {
            requested_limit: 501,
            maximum_limit: 500
        })
    );
    assert_eq!(
        t.resolve(AssocRangeLimit::Limit(usize::MAX)),
        Err(TeaError::AssocRangePageTooLarge {
            requested_limit: usize::MAX,
            maximum_limit: 500
        })
    );
}

#[test]
fn a_default_above_the_maximum_is_refused() {
    let t = Tunables {
        max_assocs_per_page: 10,
        default_assocs_per_page: 20,
    };
    assert_eq!(
        t.resolve(AssocRangeLimit::Default),
        Err(TeaError::AssocRangePageTooLarge {
            requested_limit: 20,
            maximum_limit: 10
        })
    );
    assert_eq!(t.resolve(AssocRangeLimit::Maximum), Ok(10));
    assert_eq!(t.resolve(AssocRangeLimit::Limit(10)), Ok(10));
}

#[test]
fn page_sizes_come_from_their_variables() {
    let mut max = max_assocs_per_page();
    let default = default_assocs_per_page();
    assert_eq!(max.name, "MAX_ASSOCS_PER_PAGE");
    assert_eq!(max.type_str, "usize");
    assert_eq!(max.default_value_str, "500");
    assert_eq!(default.name, "DEFAULT_ASSOCS_PER_PAGE");
    assert_eq!(default.default_value_str, "100");
    assert_eq!(Tunables::from_configs(&max, &default), Tunables::new());

    max.set(50);
    let t = Tunables::from_configs(&max, &default);
    assert_eq!(t.max_assocs_per_page, 50);
    assert_eq!(t.default_assocs_per_page, 100);
}

#[test]
fn errors_say_what_went_wrong() {
    let id = EntityId::from_u64(42).unwrap();
    let id2 = EntityId::from_u64(43).unwrap();
    let ty = AssocType::from_u64(7).unwrap();
    assert_eq!(
        TeaError::EntNotFound(id).to_string(),
        "couldn't find entity Ent(42)"
    );
    assert_eq!(
        TeaError::EntAlreadyExists(id).to_string(),
        "entity Ent(42) already exists"
    );
    assert_eq!(
        TeaError::AssocNotFound { ty, id1: id, id2 }.to_string(),
        "couldn't find assoc (AssocType(7): Ent(42)->Ent(43))"
    );
    assert_eq!(
        TeaError::AssocAlreadyExists { ty, id1: id, id2 }.to_string(),
        "assoc (AssocType(7):Ent(42)->Ent(43)) already exists"
    );
    assert_eq!(
        TeaError::AssocUpdateModifiedTooManyRows {
            ty,
            id1: id,
            id2,
            modified: 2,
            expected: 1
        }
        .to_string(),
        "CRITICAL DATA MODEL ERROR: we modified 2 rows updating assoc \
         (AssocType(7):Ent(42)->Ent(43)) but we were expecting to modify 1"
    );
    assert_eq!(
        TeaError::AssocRangePageTooLarge {
            requested_limit: 501,
            maximum_limit: 500
        }
        .to_string(),
        "cannot return more than 500 requests per page of assocs (501 was requested)"
    );
    assert_eq!(
        TeaError::EntUpdateModifiedTooManyRows {
            id,
            modified: 3,
            expected: 1
        }
        .to_string(),
        "CRITICAL DATA MODEL ERROR: we modified 3 rows updating id Ent(42) but we were \
         expecting to modify 1"
    );
    assert_eq!(
        TeaError::ZeroIsNotAValidID.to_string(),
        "got an id with the value zero"
    );
    assert_eq!(
        TeaError::ZeroIsNotAValidType.to_string(),
        "got a type with the value zero"
    );
    assert_eq!(
        TeaError::SharedResourcePoisoned.to_string(),
        "a thread panicked while holding a shared TeaConnection"
    );
}
