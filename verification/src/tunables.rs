//! The two page sizes that bound range queries.

use crate::config::Config;
use crate::errors::TeaError;
use crate::types::AssocRangeLimit;
use vstd::prelude::*;

verus! {

/// The largest page a store serves unless it is told otherwise.
pub const MAX_ASSOCS_PER_PAGE: usize = 500;

/// The page a store serves when the caller names no size, unless it is told
/// otherwise.
pub const DEFAULT_ASSOCS_PER_PAGE: usize = 100;

/// The configuration variable `MAX_ASSOCS_PER_PAGE`, at its default.
pub fn max_assocs_per_page() -> (cfg: Config<usize>)
    ensures
        cfg == (Config {
            name: "MAX_ASSOCS_PER_PAGE",
            type_str: "usize",
            path: "tea::sqlite::MAX_ASSOCS_PER_PAGE",
            purpose: " Maximum number of associations that can be fetched in a single call",
            default_value_str: "500",
            value: MAX_ASSOCS_PER_PAGE,
        }),
{
    Config::new(
        "MAX_ASSOCS_PER_PAGE",
        "usize",
        "tea::sqlite::MAX_ASSOCS_PER_PAGE",
        " Maximum number of associations that can be fetched in a single call",
        "500",
        MAX_ASSOCS_PER_PAGE,
    )
}

/// The configuration variable `DEFAULT_ASSOCS_PER_PAGE`, at its default.
pub fn default_assocs_per_page() -> (cfg: Config<usize>)
    ensures
        cfg == (Config {
            name: "DEFAULT_ASSOCS_PER_PAGE",
            type_str: "usize",
            path: "tea::sqlite::DEFAULT_ASSOCS_PER_PAGE",
            purpose: " Number of associations fetched in a single call when no limit is given",
            default_value_str: "100",
            value: DEFAULT_ASSOCS_PER_PAGE,
        }),
{
    Config::new(
        "DEFAULT_ASSOCS_PER_PAGE",
        "usize",
        "tea::sqlite::DEFAULT_ASSOCS_PER_PAGE",
        " Number of associations fetched in a single call when no limit is given",
        "100",
        DEFAULT_ASSOCS_PER_PAGE,
    )
}

/// The page sizes a store works with.
///
/// Both can be changed while the store is in use; a range query reads them
/// anew each time. Nothing keeps the default under the maximum: while it lies
/// above, a query for the default page is refused like any other page that is
/// too large.
#[derive(Debug, Clone, Copy, Hash, Eq, PartialEq, Structural)]
pub struct Tunables {
    /// Upper bound on the size of one page.
    pub max_assocs_per_page: usize,
    /// Size of a page when the caller asks for the default.
    pub default_assocs_per_page: usize,
}

impl Tunables {
    /// The page sizes of a store that was told nothing.
    pub open spec fn initial() -> Tunables {
        Tunables {
            max_assocs_per_page: MAX_ASSOCS_PER_PAGE,
            default_assocs_per_page: DEFAULT_ASSOCS_PER_PAGE,
        }
    }

    /// The page sizes of a store that was told nothing: 500 at most, 100 by
    /// default.
    #[verifier::when_used_as_spec(initial)]
    pub fn new() -> (t: Tunables)
        ensures
            t == Tunables::initial(),
    {
        Tunables {
            max_assocs_per_page: MAX_ASSOCS_PER_PAGE,
            default_assocs_per_page: DEFAULT_ASSOCS_PER_PAGE,
        }
    }

    /// The page sizes that the two configuration variables hold at present.
    pub fn from_configs(max: &Config<usize>, default: &Config<usize>) -> (t: Tunables)
        ensures
            t.max_assocs_per_page == max.value,
            t.default_assocs_per_page == default.value,
    {
        Tunables { max_assocs_per_page: max.value, default_assocs_per_page: default.value }
    }

    /// The page size that `limit` stands for, before it is held against the
    /// maximum.
    pub open spec fn requested(self, limit: AssocRangeLimit) -> usize {
        match limit {
            AssocRangeLimit::Default => self.default_assocs_per_page,
            AssocRangeLimit::Limit(n) => n,
            AssocRangeLimit::Maximum => self.max_assocs_per_page,
        }
    }

    /// Whether a page of `limit` is one the store serves.
    pub open spec fn admits(self, limit: AssocRangeLimit) -> bool {
        self.requested(limit) <= self.max_assocs_per_page
    }

    /// Turns `limit` into a number of rows, or refuses it.
    ///
    /// The default and the maximum stand for the two page sizes; a number
    /// stands for itself. A page above the maximum is refused, and the error
    /// carries both numbers.
    pub fn resolve(&self, limit: AssocRangeLimit) -> (r: Result<usize, TeaError>)
        ensures
            self.admits(limit) ==> r == Ok::<usize, TeaError>(self.requested(limit)),
            !self.admits(limit) ==> r == Err::<usize, TeaError>(
                TeaError::AssocRangePageTooLarge {
                    requested_limit: self.requested(limit),
                    maximum_limit: self.max_assocs_per_page,
                },
            ),
    {
        let maximum_limit = self.max_assocs_per_page;
        let requested_limit = match limit {
            AssocRangeLimit::Default => self.default_assocs_per_page,
            AssocRangeLimit::Limit(n) => n,
            AssocRangeLimit::Maximum => self.max_assocs_per_page,
        };
        if requested_limit > maximum_limit {
            Err(TeaError::AssocRangePageTooLarge { requested_limit, maximum_limit })
        } else {
            Ok(requested_limit)
        }
    }

    /// The maximum page is always served.
    pub proof fn maximum_is_admitted(self)
        ensures
            self.admits(AssocRangeLimit::Maximum),
    {
    }

    /// A page of a given number of rows asks for that number, and is served
    /// exactly when the number is not above the maximum.
    pub proof fn number_is_admitted_up_to_maximum(self, n: usize)
        ensures
            self.requested(AssocRangeLimit::Limit(n)) == n,
            self.admits(AssocRangeLimit::Limit(n)) <==> n <= self.max_assocs_per_page,
    {
    }

    /// The default page is served exactly when the default is not above the
    /// maximum.
    pub proof fn default_is_admitted_up_to_maximum(self)
        ensures
            self.admits(AssocRangeLimit::Default) <==> self.default_assocs_per_page
                <= self.max_assocs_per_page,
    {
    }
}

impl Default for Tunables {
    fn default() -> (t: Tunables)
        ensures
            t == Tunables::initial(),
    {
        Tunables::new()
    }
}

} // verus!
