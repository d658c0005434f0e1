//! Releases (versions) of a project: the records, and the requests that list,
//! create, update and delete them.

pub mod create;
pub mod delete;
pub mod list;
pub mod update;

use vstd::prelude::*;

verus! {

/// A release as the backend reports it.
#[derive(Debug, Clone)]
pub struct Release {
    pub id: String,
    pub description: Option<String>,
    pub name: Option<String>,
    pub archived: bool,
    pub released: bool,
    pub release_date: Option<String>,
    pub overdue: Option<bool>,
    pub user_release_date: Option<String>,
    pub project_id: u64,
}

/// One page of a list of releases.
#[derive(Debug, Clone)]
pub struct PaginatedReleases<T> {
    pub total: u64,
    pub start_at: u64,
    pub is_last: bool,
    pub values: Vec<T>,
}

/// Whether an operation names its release by id rather than by name.
pub open spec fn by_id_spec(by_id: Option<bool>) -> bool {
    by_id == Some(true)
}

pub fn is_by_id(by_id: Option<bool>) -> (r: bool)
    ensures
        r == by_id_spec(by_id),
{
    match by_id {
        Some(b) => b,
        None => false,
    }
}

} // verus!
