//! The admin dashboard's counts.
use vstd::prelude::*;
use crate::models::{DashboardStats, DbError, Reply};
use crate::replies::{answer_loaded, loaded_reply};

verus! {

/// A count as the storage layer returns it, with no value read as 0.
pub open spec fn count_or_zero(c: Option<i64>) -> i64 {
    match c {
        Some(n) => n,
        None => 0,
    }
}

/// The dashboard counts from the five counting queries.
pub fn dashboard_stats(
    total_products: Option<i64>,
    published_products: Option<i64>,
    total_gallery_items: Option<i64>,
    total_employees: Option<i64>,
    active_employees: Option<i64>,
) -> (r: DashboardStats)
    ensures
        r.total_products == count_or_zero(total_products),
        r.published_products == count_or_zero(published_products),
        r.total_gallery_items == count_or_zero(total_gallery_items),
        r.total_employees == count_or_zero(total_employees),
        r.active_employees == count_or_zero(active_employees),
{
    DashboardStats {
        total_products: total_products.unwrap_or(0),
        published_products: published_products.unwrap_or(0),
        total_gallery_items: total_gallery_items.unwrap_or(0),
        total_employees: total_employees.unwrap_or(0),
        active_employees: active_employees.unwrap_or(0),
    }
}

/// Answer to the dashboard request.
pub fn get_stats(res: Result<DashboardStats, DbError>) -> (r: Reply<DashboardStats>)
    ensures
        loaded_reply(r, res, None, "Failed to fetch stats"@),
{
    answer_loaded(res, None, "Failed to fetch stats")
}

/// A count the storage layer returned is shown as it is; a missing count is
/// shown as 0.
pub proof fn counts_are_shown_or_zero(c: Option<i64>, n: i64)
    ensures
        c is None ==> count_or_zero(c) == 0,
        c == Some(n) ==> count_or_zero(c) == n,
{
}

} // verus!
