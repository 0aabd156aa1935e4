//! The banner at the top of the home page.
use vstd::prelude::*;
use crate::models::{DbError, Reply};
use crate::replies::{answer_found, found_reply};

verus! {

/// Answer to reading the active hero section.
pub fn get_hero<T>(found: Result<Option<T>, DbError>) -> (r: Reply<T>)
    ensures
        found_reply(r, found, None, "Hero section not found"@, "Failed to fetch hero section"@),
{
    answer_found(found, None, "Hero section not found", "Failed to fetch hero section")
}

/// Answer to changing the active hero section.
pub fn update_hero<T>(found: Result<Option<T>, DbError>) -> (r: Reply<T>)
    ensures
        found_reply(
            r,
            found,
            Some("Hero section updated"@),
            "Hero section not found"@,
            "Failed to update hero section"@,
        ),
{
    answer_found(found, Some("Hero section updated"), "Hero section not found", "Failed to update hero section")
}

} // verus!
