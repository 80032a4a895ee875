//! Verified core of a tool that decides whether packages' upstream
//! repositories are still maintained, centred on its on-disk cache:
//! content addressing of repository URLs, timestamp/entry/versions stores
//! with a freshness policy, and the clone/refresh engine.

pub mod cache;
pub mod digest;
pub mod numtext;
pub mod progress;
pub mod repo_status;
pub mod reporting;
pub mod strmap;
pub mod text;
pub mod url;

use vstd::prelude::*;

verus! {

/// Number of seconds in one day, used by every freshness computation.
pub const SECS_PER_DAY: u64 = 86400;

/// True iff a record written at `ts` is still current at `now` under a
/// refresh age of `age_days` days: the record lies in the past and fewer
/// than `age_days` days have elapsed since it was written.
pub open spec fn spec_fresh(ts: u64, now: u64, age_days: u64) -> bool {
    ts <= now && (now - ts) < age_days * (SECS_PER_DAY as int)
}

/// Decides freshness of a timestamp exactly as `spec_fresh` states it.
pub fn is_current(ts: u64, now: u64, age_days: u64) -> (r: bool)
    ensures
        r == spec_fresh(ts, now, age_days),
{
    if ts > now {
        return false;
    }
    let elapsed = now - ts;
    if age_days > u64::MAX / SECS_PER_DAY {
        proof {
            assert(age_days * (SECS_PER_DAY as int) > u64::MAX) by (nonlinear_arith)
                requires
                    age_days > u64::MAX / SECS_PER_DAY,
            ;
        }
        true
    } else {
        elapsed < age_days * SECS_PER_DAY
    }
}

} // verus!
