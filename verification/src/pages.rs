//! Pages of associations, and what paging through them yields.

use crate::types::{AssocRangeAfter, AssocRangeLimit, AssocStorage, AssocType, EntityId};
use vstd::prelude::*;

verus! {

/// Whether every association of `page` is one of type `ty` that starts at
/// `id1`.
pub open spec fn all_from(page: Seq<AssocStorage>, ty: AssocType, id1: EntityId) -> bool {
    forall|i: int| 0 <= i < page.len() ==> (#[trigger] page[i]).ty == ty && page[i].id1 == id1
}

/// Whether the end points of `page` ascend, each above the one before.
pub open spec fn ascends(page: Seq<AssocStorage>) -> bool {
    forall|i: int, j: int|
        0 <= i < j < page.len() ==> (#[trigger] page[i]).id2.value() < (#[trigger] page[j]).id2.value()
}

/// Whether every end point of `page` lies above `floor`.
pub open spec fn all_above(page: Seq<AssocStorage>, floor: u64) -> bool {
    forall|i: int| 0 <= i < page.len() ==> (#[trigger] page[i]).id2.value() > floor
}

/// Whether every association of `page` was last changed between `low` and
/// `high`, both included.
pub open spec fn all_within(page: Seq<AssocStorage>, low: i64, high: i64) -> bool {
    forall|i: int| 0 <= i < page.len() ==> low <= (#[trigger] page[i]).last_change <= high
}

/// Whether `page` runs from the latest change to the earliest.
pub open spec fn latest_first(page: Seq<AssocStorage>) -> bool {
    forall|i: int, j: int|
        0 <= i < j < page.len() ==> (#[trigger] page[i]).last_change >= (
        #[trigger] page[j]).last_change
}

/// Whether no two associations of `page` end at the same entity.
pub open spec fn distinct_ends(page: Seq<AssocStorage>) -> bool {
    forall|i: int, j: int|
        0 <= i < j < page.len() ==> (#[trigger] page[i]).id2 != (#[trigger] page[j]).id2
}

/// Whether every association of `found` ends at one of `ends`.
pub open spec fn ends_among(found: Seq<AssocStorage>, ends: Seq<EntityId>) -> bool {
    forall|i: int| 0 <= i < found.len() ==> ends.contains((#[trigger] found[i]).id2)
}

/// Whether `page` holds no more than a `limit` of a given number allows.
pub open spec fn keeps_to(page: Seq<AssocStorage>, limit: AssocRangeLimit) -> bool {
    limit matches AssocRangeLimit::Limit(n) ==> page.len() <= n
}

/// Whether `page` is a page of the associations of type `ty` from `id1` that
/// begins above `after`: all of that type and start, by ascending end point,
/// the cursor itself left out.
pub open spec fn is_range_page(
    page: Seq<AssocStorage>,
    ty: AssocType,
    id1: EntityId,
    after: AssocRangeAfter,
) -> bool {
    all_from(page, ty, id1) && all_above(page, after.floor()) && ascends(page)
}

/// A page and the page that continues after its last association ascend
/// together: paging never goes back and never yields an end point twice.
pub proof fn pages_ascend_together(
    first: Seq<AssocStorage>,
    next: Seq<AssocStorage>,
    ty: AssocType,
    id1: EntityId,
    after: AssocRangeAfter,
)
    requires
        first.len() > 0,
        is_range_page(first, ty, id1, after),
        is_range_page(next, ty, id1, AssocRangeAfter::ID(first.last().id2)),
    ensures
        is_range_page(first + next, ty, id1, after),
{
}

/// The pages of `pages` one after the other.
pub open spec fn joined(pages: Seq<Seq<AssocStorage>>) -> Seq<AssocStorage>
    decreases pages.len(),
{
    if pages.len() == 0 {
        Seq::empty()
    } else {
        joined(pages.drop_last()) + pages.last()
    }
}

/// Whether the page at `k` is where it belongs in a paging through the
/// associations of type `ty` from `id1`: the first page begins above `after`,
/// and every further page continues after the last association of the page
/// before it, which holds one.
pub open spec fn continues_at(
    pages: Seq<Seq<AssocStorage>>,
    k: int,
    ty: AssocType,
    id1: EntityId,
    after: AssocRangeAfter,
) -> bool {
    if k == 0 {
        is_range_page(pages[k], ty, id1, after)
    } else {
        pages[k - 1].len() > 0 && is_range_page(
            pages[k],
            ty,
            id1,
            AssocRangeAfter::ID(pages[k - 1].last().id2),
        )
    }
}

/// Whether `pages` are what paging through the associations of type `ty`
/// from `id1` yields, beginning above `after`.
pub open spec fn is_paging(
    pages: Seq<Seq<AssocStorage>>,
    ty: AssocType,
    id1: EntityId,
    after: AssocRangeAfter,
) -> bool {
    forall|k: int| 0 <= k < pages.len() ==> #[trigger] continues_at(pages, k, ty, id1, after)
}

/// All but the last page of a paging are a paging themselves, and each of
/// them holds something.
proof fn paging_without_last(
    pages: Seq<Seq<AssocStorage>>,
    ty: AssocType,
    id1: EntityId,
    after: AssocRangeAfter,
)
    requires
        is_paging(pages, ty, id1, after),
        pages.len() >= 2,
    ensures
        is_paging(pages.drop_last(), ty, id1, after),
        pages.drop_last().last().len() > 0,
        is_range_page(
            pages.last(),
            ty,
            id1,
            AssocRangeAfter::ID(pages.drop_last().last().last().id2),
        ),
{
    let init = pages.drop_last();
    assert(continues_at(pages, pages.len() - 1, ty, id1, after));
    assert forall|k: int| 0 <= k < init.len() implies #[trigger] continues_at(
        init,
        k,
        ty,
        id1,
        after,
    ) by {
        assert(continues_at(pages, k, ty, id1, after));
    }
}

/// Paging yields end points in strictly ascending order: the pages of a
/// paging, one after the other, are one page that begins above the first
/// cursor. No end point comes twice, and none at or below the cursor.
pub proof fn paging_ascends(
    pages: Seq<Seq<AssocStorage>>,
    ty: AssocType,
    id1: EntityId,
    after: AssocRangeAfter,
)
    requires
        is_paging(pages, ty, id1, after),
    ensures
        is_range_page(joined(pages), ty, id1, after),
        pages.len() > 0 && pages.last().len() > 0 ==> joined(pages).len() > 0 && joined(
            pages,
        ).last() == pages.last().last(),
    decreases pages.len(),
{
    if pages.len() == 0 {
    } else if pages.len() == 1 {
        assert(joined(pages.drop_last()) =~= Seq::<AssocStorage>::empty());
        assert(continues_at(pages, 0, ty, id1, after));
    } else {
        let init = pages.drop_last();
        let last = pages.last();
        paging_without_last(pages, ty, id1, after);
        paging_ascends(init, ty, id1, after);
        pages_ascend_together(joined(init), last, ty, id1, after);
    }
}

/// A page that ascends holds no end point twice.
pub proof fn ascending_ends_are_distinct(page: Seq<AssocStorage>)
    requires
        ascends(page),
    ensures
        distinct_ends(page),
{
}

/// Asked for one end point, a query finds one association at most.
pub proof fn one_end_is_found_once(found: Seq<AssocStorage>, end: EntityId)
    requires
        ends_among(found, seq![end]),
        distinct_ends(found),
    ensures
        found.len() <= 1,
{
    if found.len() >= 2 {
        assert(found[0].id2 == end && found[1].id2 == end);
    }
}

} // verus!
