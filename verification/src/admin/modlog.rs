//! Reading the moderation log.

use vstd::prelude::*;

verus! {

/// The number of entries returned when none is asked for.
pub const DEFAULT_MOD_LOG_LIMIT: i64 = 100;

/// The most entries returned at once.
pub const MAX_MOD_LOG_LIMIT: i64 = 500;

/// The query of a request for the moderation log.
#[derive(Debug, Clone, Copy)]
pub struct ModLogQuery {
    pub limit: Option<i64>,
}

/// The number of entries for a requested limit: 100 by default, and
/// between 1 and 500.
pub open spec fn log_limit(limit: Option<i64>) -> int {
    let asked = match limit {
        Some(l) => l as int,
        None => DEFAULT_MOD_LOG_LIMIT as int,
    };
    if asked < 1 {
        1
    } else if asked > MAX_MOD_LOG_LIMIT {
        MAX_MOD_LOG_LIMIT as int
    } else {
        asked
    }
}

/// The number of entries for a requested limit.
pub fn mod_log_limit(query: ModLogQuery) -> (r: i64)
    ensures
        r == log_limit(query.limit),
{
    let asked = match query.limit {
        Some(l) => l,
        None => DEFAULT_MOD_LOG_LIMIT,
    };
    if asked < 1 {
        1
    } else if asked > MAX_MOD_LOG_LIMIT {
        MAX_MOD_LOG_LIMIT
    } else {
        asked
    }
}

} // verus!
