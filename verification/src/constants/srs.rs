//! Daily limits of practice.

use vstd::prelude::*;

verus! {

/// How many cards are reviewed in a day unless the user sets another limit.
pub const DEFAULT_DAILY_REVIEW_LIMIT: usize = 20;

/// How many new cards are shown in a day unless the user sets another limit.
pub const DEFAULT_NEW_CARDS_PER_DAY: usize = 10;

} // verus!
