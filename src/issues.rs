//! Issues: the records the backend reports, and the requests that search,
//! update and transition them.

pub mod list_transition;
pub mod search_issues;
pub mod transition_issue;
pub mod update;

use vstd::prelude::*;

verus! {

/// A state change that can be applied to an issue.
#[derive(Debug, Clone)]
pub struct Transition {
    pub id: String,
    pub name: String,
    pub is_available: bool,
}

#[derive(Debug, Clone)]
pub struct IssueStatus {
    pub description: Option<String>,
    pub id: String,
    pub name: String,
}

#[derive(Debug, Clone)]
pub struct IssueFields {
    pub summary: String,
    pub status: IssueStatus,
    pub fix_versions: Vec<IssueRelease>,
}

/// A release as an issue refers to it.
#[derive(Debug, Clone)]
pub struct IssueRelease {
    pub id: String,
    pub description: Option<String>,
    pub name: String,
}

#[derive(Debug, Clone)]
pub struct Issue {
    pub id: String,
    pub key: String,
    pub fields: IssueFields,
}

/// One page of search results.
#[derive(Debug, Clone)]
pub struct PaginatedIssues {
    pub total: u64,
    pub start_at: u64,
    pub issues: Vec<Issue>,
}

} // verus!
